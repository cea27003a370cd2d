//! Native names of languages and short names of countries, and the
//! human-readable label of a locale.
use vstd::prelude::*;
use vstd::string::StrSliceExecFns;
use vstd::string::StringExecFns;

use crate::text::{after, before, chars_of, find, find_between, lemma_find, lemma_find_at, str_eq};

verus! {

/// The native name of the language with ISO 639-1 code `code`, or `code`
/// itself when the table does not list it.
pub open spec fn language_name(code: Seq<char>) -> Seq<char> {
    if code == "en"@ {
        "English"@
    } else if code == "de"@ {
        "Deutsch"@
    } else if code == "fr"@ {
        "Français"@
    } else if code == "es"@ {
        "Español"@
    } else if code == "it"@ {
        "Italiano"@
    } else if code == "pt"@ {
        "Português"@
    } else if code == "ru"@ {
        "Русский"@
    } else if code == "ja"@ {
        "日本語"@
    } else if code == "zh"@ {
        "中文"@
    } else if code == "ko"@ {
        "한국어"@
    } else if code == "ar"@ {
        "العربية"@
    } else if code == "nl"@ {
        "Nederlands"@
    } else if code == "pl"@ {
        "Polski"@
    } else if code == "tr"@ {
        "Türkçe"@
    } else if code == "sv"@ {
        "Svenska"@
    } else if code == "da"@ {
        "Dansk"@
    } else if code == "fi"@ {
        "Suomi"@
    } else if code == "nb"@ {
        "Norsk"@
    } else if code == "cs"@ {
        "Čeština"@
    } else if code == "sk"@ {
        "Slovenčina"@
    } else if code == "hu"@ {
        "Magyar"@
    } else if code == "ro"@ {
        "Română"@
    } else if code == "bg"@ {
        "Български"@
    } else if code == "uk"@ {
        "Українська"@
    } else if code == "el"@ {
        "Ελληνικά"@
    } else if code == "he"@ {
        "עברית"@
    } else if code == "hi"@ {
        "हिन्दी"@
    } else if code == "th"@ {
        "ไทย"@
    } else if code == "vi"@ {
        "Tiếng Việt"@
    } else if code == "id"@ {
        "Bahasa Indonesia"@
    } else if code == "ms"@ {
        "Bahasa Melayu"@
    } else if code == "bn"@ {
        "বাংলা"@
    } else if code == "ta"@ {
        "தமிழ்"@
    } else if code == "te"@ {
        "తెలుగు"@
    } else if code == "mr"@ {
        "मराठी"@
    } else if code == "gu"@ {
        "ગુજરાતી"@
    } else if code == "kn"@ {
        "ಕನ್ನಡ"@
    } else if code == "ml"@ {
        "മലയാളം"@
    } else if code == "si"@ {
        "සිංහල"@
    } else if code == "ne"@ {
        "नेपाली"@
    } else if code == "fa"@ {
        "فارسی"@
    } else if code == "ur"@ {
        "اردو"@
    } else if code == "ca"@ {
        "Català"@
    } else if code == "eu"@ {
        "Euskara"@
    } else if code == "gl"@ {
        "Galego"@
    } else if code == "hr"@ {
        "Hrvatski"@
    } else if code == "sr"@ {
        "Српски"@
    } else if code == "sl"@ {
        "Slovenščina"@
    } else if code == "lt"@ {
        "Lietuvių"@
    } else if code == "lv"@ {
        "Latviešu"@
    } else if code == "et"@ {
        "Eesti"@
    } else if code == "sq"@ {
        "Shqip"@
    } else if code == "mk"@ {
        "Македонски"@
    } else if code == "bs"@ {
        "Bosanski"@
    } else if code == "is"@ {
        "Íslenska"@
    } else if code == "ga"@ {
        "Gaeilge"@
    } else if code == "cy"@ {
        "Cymraeg"@
    } else if code == "mt"@ {
        "Malti"@
    } else if code == "af"@ {
        "Afrikaans"@
    } else if code == "sw"@ {
        "Kiswahili"@
    } else if code == "am"@ {
        "አማርኛ"@
    } else if code == "my"@ {
        "မြန်မာဘာသာ"@
    } else if code == "km"@ {
        "ភាសាខ្មែរ"@
    } else if code == "lo"@ {
        "ລາວ"@
    } else if code == "mn"@ {
        "Монгол"@
    } else if code == "bo"@ {
        "བོད་སྐད"@
    } else if code == "kk"@ {
        "Қазақ"@
    } else if code == "ky"@ {
        "Кыргыз"@
    } else if code == "tg"@ {
        "Тоҷикӣ"@
    } else if code == "tk"@ {
        "Türkmen"@
    } else if code == "uz"@ {
        "Oʻzbek"@
    } else if code == "hy"@ {
        "Հայերեն"@
    } else if code == "ka"@ {
        "ქართული"@
    } else if code == "ps"@ {
        "پښتو"@
    } else if code == "sd"@ {
        "سنڌي"@
    } else if code == "ug"@ {
        "ئۇيغۇرچە"@
    } else if code == "tt"@ {
        "Татар"@
    } else {
        code
    }
}

/// The short English name of the country with ISO 3166-1 code `code`, or
/// `code` itself when the table does not list it.
pub open spec fn country_label(code: Seq<char>) -> Seq<char> {
    if code == "US"@ {
        "United States"@
    } else if code == "GB"@ {
        "UK"@
    } else if code == "DE"@ {
        "Germany"@
    } else if code == "FR"@ {
        "France"@
    } else if code == "ES"@ {
        "Spain"@
    } else if code == "IT"@ {
        "Italy"@
    } else if code == "PT"@ {
        "Portugal"@
    } else if code == "BR"@ {
        "Brazil"@
    } else if code == "RU"@ {
        "Russia"@
    } else if code == "JP"@ {
        "Japan"@
    } else if code == "CN"@ {
        "China"@
    } else if code == "KR"@ {
        "South Korea"@
    } else if code == "SA"@ {
        "Saudi Arabia"@
    } else if code == "AE"@ {
        "UAE"@
    } else if code == "NL"@ {
        "Netherlands"@
    } else if code == "PL"@ {
        "Poland"@
    } else if code == "TR"@ {
        "Turkey"@
    } else if code == "SE"@ {
        "Sweden"@
    } else if code == "DK"@ {
        "Denmark"@
    } else if code == "FI"@ {
        "Finland"@
    } else if code == "NO"@ {
        "Norway"@
    } else if code == "CZ"@ {
        "Czechia"@
    } else if code == "SK"@ {
        "Slovakia"@
    } else if code == "HU"@ {
        "Hungary"@
    } else if code == "RO"@ {
        "Romania"@
    } else if code == "BG"@ {
        "Bulgaria"@
    } else if code == "GR"@ {
        "Greece"@
    } else if code == "IL"@ {
        "Israel"@
    } else if code == "IN"@ {
        "India"@
    } else if code == "TH"@ {
        "Thailand"@
    } else if code == "VN"@ {
        "Vietnam"@
    } else if code == "ID"@ {
        "Indonesia"@
    } else if code == "MY"@ {
        "Malaysia"@
    } else if code == "BD"@ {
        "Bangladesh"@
    } else if code == "HK"@ {
        "Hong Kong"@
    } else if code == "TW"@ {
        "Taiwan"@
    } else if code == "SG"@ {
        "Singapore"@
    } else if code == "CH"@ {
        "Switzerland"@
    } else if code == "AT"@ {
        "Austria"@
    } else if code == "BE"@ {
        "Belgium"@
    } else if code == "CA"@ {
        "Canada"@
    } else if code == "AU"@ {
        "Australia"@
    } else if code == "NZ"@ {
        "New Zealand"@
    } else if code == "ZA"@ {
        "South Africa"@
    } else if code == "MX"@ {
        "Mexico"@
    } else if code == "AR"@ {
        "Argentina"@
    } else if code == "CL"@ {
        "Chile"@
    } else if code == "CO"@ {
        "Colombia"@
    } else if code == "PE"@ {
        "Peru"@
    } else if code == "UA"@ {
        "Ukraine"@
    } else if code == "EG"@ {
        "Egypt"@
    } else if code == "MA"@ {
        "Morocco"@
    } else if code == "NG"@ {
        "Nigeria"@
    } else if code == "KE"@ {
        "Kenya"@
    } else if code == "PH"@ {
        "Philippines"@
    } else if code == "PK"@ {
        "Pakistan"@
    } else if code == "IR"@ {
        "Iran"@
    } else if code == "IQ"@ {
        "Iraq"@
    } else if code == "DZ"@ {
        "Algeria"@
    } else if code == "TN"@ {
        "Tunisia"@
    } else {
        code
    }
}

/// Whether `c` is one of the languages codes that the table lists.
pub open spec fn is_language_code(c: Seq<char>) -> bool {
    c == "en"@ || c == "de"@ || c == "fr"@ || c == "es"@ || c == "it"@ || c == "pt"@ || c == "ru"@ || c == "ja"@ || c == "zh"@ || c == "ko"@ || c == "ar"@ || c == "nl"@ || c == "pl"@ || c == "tr"@ || c == "sv"@ || c == "da"@ || c == "fi"@ || c == "nb"@ || c == "cs"@ || c == "sk"@ || c == "hu"@ || c == "ro"@ || c == "bg"@ || c == "uk"@ || c == "el"@ || c == "he"@ || c == "hi"@ || c == "th"@ || c == "vi"@ || c == "id"@ || c == "ms"@ || c == "bn"@ || c == "ta"@ || c == "te"@ || c == "mr"@ || c == "gu"@ || c == "kn"@ || c == "ml"@ || c == "si"@ || c == "ne"@ || c == "fa"@ || c == "ur"@ || c == "ca"@ || c == "eu"@ || c == "gl"@ || c == "hr"@ || c == "sr"@ || c == "sl"@ || c == "lt"@ || c == "lv"@ || c == "et"@ || c == "sq"@ || c == "mk"@ || c == "bs"@ || c == "is"@ || c == "ga"@ || c == "cy"@ || c == "mt"@ || c == "af"@ || c == "sw"@ || c == "am"@ || c == "my"@ || c == "km"@ || c == "lo"@ || c == "mn"@ || c == "bo"@ || c == "kk"@ || c == "ky"@ || c == "tg"@ || c == "tk"@ || c == "uz"@ || c == "hy"@ || c == "ka"@ || c == "ps"@ || c == "sd"@ || c == "ug"@ || c == "tt"@
}

/// The listed code whose language name has the length and first two characters of `name`.
spec fn language_code_by_key(name: Seq<char>) -> Seq<char> {
    if name.len() == 7 && name[0] == 'E' && name[1] == 'n' {
        "en"@
    } else if name.len() == 7 && name[0] == 'D' && name[1] == 'e' {
        "de"@
    } else if name.len() == 8 && name[0] == 'F' && name[1] == 'r' {
        "fr"@
    } else if name.len() == 7 && name[0] == 'E' && name[1] == 's' {
        "es"@
    } else if name.len() == 8 && name[0] == 'I' && name[1] == 't' {
        "it"@
    } else if name.len() == 9 && name[0] == 'P' && name[1] == 'o' {
        "pt"@
    } else if name.len() == 7 && name[0] == 'Р' && name[1] == 'у' {
        "ru"@
    } else if name.len() == 3 && name[0] == '日' && name[1] == '本' {
        "ja"@
    } else if name.len() == 2 && name[0] == '中' && name[1] == '文' {
        "zh"@
    } else if name.len() == 3 && name[0] == '한' && name[1] == '국' {
        "ko"@
    } else if name.len() == 7 && name[0] == 'ا' && name[1] == 'ل' {
        "ar"@
    } else if name.len() == 10 && name[0] == 'N' && name[1] == 'e' {
        "nl"@
    } else if name.len() == 6 && name[0] == 'P' && name[1] == 'o' {
        "pl"@
    } else if name.len() == 6 && name[0] == 'T' && name[1] == 'ü' {
        "tr"@
    } else if name.len() == 7 && name[0] == 'S' && name[1] == 'v' {
        "sv"@
    } else if name.len() == 5 && name[0] == 'D' && name[1] == 'a' {
        "da"@
    } else if name.len() == 5 && name[0] == 'S' && name[1] == 'u' {
        "fi"@
    } else if name.len() == 5 && name[0] == 'N' && name[1] == 'o' {
        "nb"@
    } else if name.len() == 7 && name[0] == 'Č' && name[1] == 'e' {
        "cs"@
    } else if name.len() == 10 && name[0] == 'S' && name[1] == 'l' {
        "sk"@
    } else if name.len() == 6 && name[0] == 'M' && name[1] == 'a' {
        "hu"@
    } else if name.len() == 6 && name[0] == 'R' && name[1] == 'o' {
        "ro"@
    } else if name.len() == 9 && name[0] == 'Б' && name[1] == 'ъ' {
        "bg"@
    } else if name.len() == 10 && name[0] == 'У' && name[1] == 'к' {
        "uk"@
    } else if name.len() == 8 && name[0] == 'Ε' && name[1] == 'λ' {
        "el"@
    } else if name.len() == 5 && name[0] == 'ע' && name[1] == 'ב' {
        "he"@
    } else if name.len() == 6 && name[0] == 'ह' && name[1] == 'ि' {
        "hi"@
    } else if name.len() == 3 && name[0] == 'ไ' && name[1] == 'ท' {
        "th"@
    } else if name.len() == 10 && name[0] == 'T' && name[1] == 'i' {
        "vi"@
    } else if name.len() == 16 && name[0] == 'B' && name[1] == 'a' {
        "id"@
    } else if name.len() == 13 && name[0] == 'B' && name[1] == 'a' {
        "ms"@
    } else if name.len() == 5 && name[0] == 'ব' && name[1] == 'া' {
        "bn"@
    } else if name.len() == 5 && name[0] == 'த' && name[1] == 'ம' {
        "ta"@
    } else if name.len() == 6 && name[0] == 'త' && name[1] == 'ె' {
        "te"@
    } else if name.len() == 5 && name[0] == 'म' && name[1] == 'र' {
        "mr"@
    } else if name.len() == 7 && name[0] == 'ગ' && name[1] == 'ુ' {
        "gu"@
    } else if name.len() == 5 && name[0] == 'ಕ' && name[1] == 'ನ' {
        "kn"@
    } else if name.len() == 6 && name[0] == 'മ' && name[1] == 'ല' {
        "ml"@
    } else if name.len() == 5 && name[0] == 'ස' && name[1] == 'ි' {
        "si"@
    } else if name.len() == 6 && name[0] == 'न' && name[1] == 'े' {
        "ne"@
    } else if name.len() == 5 && name[0] == 'ف' && name[1] == 'ا' {
        "fa"@
    } else if name.len() == 4 && name[0] == 'ا' && name[1] == 'ر' {
        "ur"@
    } else if name.len() == 6 && name[0] == 'C' && name[1] == 'a' {
        "ca"@
    } else if name.len() == 7 && name[0] == 'E' && name[1] == 'u' {
        "eu"@
    } else if name.len() == 6 && name[0] == 'G' && name[1] == 'a' {
        "gl"@
    } else if name.len() == 8 && name[0] == 'H' && name[1] == 'r' {
        "hr"@
    } else if name.len() == 6 && name[0] == 'С' && name[1] == 'р' {
        "sr"@
    } else if name.len() == 11 && name[0] == 'S' && name[1] == 'l' {
        "sl"@
    } else if name.len() == 8 && name[0] == 'L' && name[1] == 'i' {
        "lt"@
    } else if name.len() == 8 && name[0] == 'L' && name[1] == 'a' {
        "lv"@
    } else if name.len() == 5 && name[0] == 'E' && name[1] == 'e' {
        "et"@
    } else if name.len() == 5 && name[0] == 'S' && name[1] == 'h' {
        "sq"@
    } else if name.len() == 10 && name[0] == 'М' && name[1] == 'а' {
        "mk"@
    } else if name.len() == 8 && name[0] == 'B' && name[1] == 'o' {
        "bs"@
    } else if name.len() == 8 && name[0] == 'Í' && name[1] == 's' {
        "is"@
    } else if name.len() == 7 && name[0] == 'G' && name[1] == 'a' {
        "ga"@
    } else if name.len() == 7 && name[0] == 'C' && name[1] == 'y' {
        "cy"@
    } else if name.len() == 5 && name[0] == 'M' && name[1] == 'a' {
        "mt"@
    } else if name.len() == 9 && name[0] == 'A' && name[1] == 'f' {
        "af"@
    } else if name.len() == 9 && name[0] == 'K' && name[1] == 'i' {
        "sw"@
    } else if name.len() == 4 && name[0] == 'አ' && name[1] == 'ማ' {
        "am"@
    } else if name.len() == 10 && name[0] == 'မ' && name[1] == 'ြ' {
        "my"@
    } else if name.len() == 9 && name[0] == 'ភ' && name[1] == 'ា' {
        "km"@
    } else if name.len() == 3 && name[0] == 'ລ' && name[1] == 'າ' {
        "lo"@
    } else if name.len() == 6 && name[0] == 'М' && name[1] == 'о' {
        "mn"@
    } else if name.len() == 7 && name[0] == 'བ' && name[1] == 'ོ' {
        "bo"@
    } else if name.len() == 5 && name[0] == 'Қ' && name[1] == 'а' {
        "kk"@
    } else if name.len() == 6 && name[0] == 'К' && name[1] == 'ы' {
        "ky"@
    } else if name.len() == 6 && name[0] == 'Т' && name[1] == 'о' {
        "tg"@
    } else if name.len() == 7 && name[0] == 'T' && name[1] == 'ü' {
        "tk"@
    } else if name.len() == 6 && name[0] == 'O' && name[1] == 'ʻ' {
        "uz"@
    } else if name.len() == 7 && name[0] == 'Հ' && name[1] == 'ա' {
        "hy"@
    } else if name.len() == 7 && name[0] == 'ქ' && name[1] == 'ა' {
        "ka"@
    } else if name.len() == 4 && name[0] == 'پ' && name[1] == 'ښ' {
        "ps"@
    } else if name.len() == 4 && name[0] == 'س' && name[1] == 'ن' {
        "sd"@
    } else if name.len() == 8 && name[0] == 'ئ' && name[1] == 'ۇ' {
        "ug"@
    } else if name.len() == 5 && name[0] == 'Т' && name[1] == 'а' {
        "tt"@
    } else {
        name
    }
}

/// The name of a listed code leads back to that code.
proof fn lemma_language_name_leads_back(c: Seq<char>)
    requires
        is_language_code(c),
    ensures
        language_code_by_key(language_name(c)) == c,
{
    if c == "en"@ {
        reveal_strlit("English");
    } else if c == "de"@ {
        reveal_strlit("Deutsch");
    } else if c == "fr"@ {
        reveal_strlit("Français");
    } else if c == "es"@ {
        reveal_strlit("Español");
    } else if c == "it"@ {
        reveal_strlit("Italiano");
    } else if c == "pt"@ {
        reveal_strlit("Português");
    } else if c == "ru"@ {
        reveal_strlit("Русский");
    } else if c == "ja"@ {
        reveal_strlit("日本語");
    } else if c == "zh"@ {
        reveal_strlit("中文");
    } else if c == "ko"@ {
        reveal_strlit("한국어");
    } else if c == "ar"@ {
        reveal_strlit("العربية");
    } else if c == "nl"@ {
        reveal_strlit("Nederlands");
    } else if c == "pl"@ {
        reveal_strlit("Polski");
    } else if c == "tr"@ {
        reveal_strlit("Türkçe");
    } else if c == "sv"@ {
        reveal_strlit("Svenska");
    } else if c == "da"@ {
        reveal_strlit("Dansk");
    } else if c == "fi"@ {
        reveal_strlit("Suomi");
    } else if c == "nb"@ {
        reveal_strlit("Norsk");
    } else if c == "cs"@ {
        reveal_strlit("Čeština");
    } else if c == "sk"@ {
        reveal_strlit("Slovenčina");
    } else if c == "hu"@ {
        reveal_strlit("Magyar");
    } else if c == "ro"@ {
        reveal_strlit("Română");
    } else if c == "bg"@ {
        reveal_strlit("Български");
    } else if c == "uk"@ {
        reveal_strlit("Українська");
    } else if c == "el"@ {
        reveal_strlit("Ελληνικά");
    } else if c == "he"@ {
        reveal_strlit("עברית");
    } else if c == "hi"@ {
        reveal_strlit("हिन्दी");
    } else if c == "th"@ {
        reveal_strlit("ไทย");
    } else if c == "vi"@ {
        reveal_strlit("Tiếng Việt");
    } else if c == "id"@ {
        reveal_strlit("Bahasa Indonesia");
    } else if c == "ms"@ {
        reveal_strlit("Bahasa Melayu");
    } else if c == "bn"@ {
        reveal_strlit("বাংলা");
    } else if c == "ta"@ {
        reveal_strlit("தமிழ்");
    } else if c == "te"@ {
        reveal_strlit("తెలుగు");
    } else if c == "mr"@ {
        reveal_strlit("मराठी");
    } else if c == "gu"@ {
        reveal_strlit("ગુજરાતી");
    } else if c == "kn"@ {
        reveal_strlit("ಕನ್ನಡ");
    } else if c == "ml"@ {
        reveal_strlit("മലയാളം");
    } else if c == "si"@ {
        reveal_strlit("සිංහල");
    } else if c == "ne"@ {
        reveal_strlit("नेपाली");
    } else if c == "fa"@ {
        reveal_strlit("فارسی");
    } else if c == "ur"@ {
        reveal_strlit("اردو");
    } else if c == "ca"@ {
        reveal_strlit("Català");
    } else if c == "eu"@ {
        reveal_strlit("Euskara");
    } else if c == "gl"@ {
        reveal_strlit("Galego");
    } else if c == "hr"@ {
        reveal_strlit("Hrvatski");
    } else if c == "sr"@ {
        reveal_strlit("Српски");
    } else if c == "sl"@ {
        reveal_strlit("Slovenščina");
    } else if c == "lt"@ {
        reveal_strlit("Lietuvių");
    } else if c == "lv"@ {
        reveal_strlit("Latviešu");
    } else if c == "et"@ {
        reveal_strlit("Eesti");
    } else if c == "sq"@ {
        reveal_strlit("Shqip");
    } else if c == "mk"@ {
        reveal_strlit("Македонски");
    } else if c == "bs"@ {
        reveal_strlit("Bosanski");
    } else if c == "is"@ {
        reveal_strlit("Íslenska");
    } else if c == "ga"@ {
        reveal_strlit("Gaeilge");
    } else if c == "cy"@ {
        reveal_strlit("Cymraeg");
    } else if c == "mt"@ {
        reveal_strlit("Malti");
    } else if c == "af"@ {
        reveal_strlit("Afrikaans");
    } else if c == "sw"@ {
        reveal_strlit("Kiswahili");
    } else if c == "am"@ {
        reveal_strlit("አማርኛ");
    } else if c == "my"@ {
        reveal_strlit("မြန်မာဘာသာ");
    } else if c == "km"@ {
        reveal_strlit("ភាសាខ្មែរ");
    } else if c == "lo"@ {
        reveal_strlit("ລາວ");
    } else if c == "mn"@ {
        reveal_strlit("Монгол");
    } else if c == "bo"@ {
        reveal_strlit("བོད་སྐད");
    } else if c == "kk"@ {
        reveal_strlit("Қазақ");
    } else if c == "ky"@ {
        reveal_strlit("Кыргыз");
    } else if c == "tg"@ {
        reveal_strlit("Тоҷикӣ");
    } else if c == "tk"@ {
        reveal_strlit("Türkmen");
    } else if c == "uz"@ {
        reveal_strlit("Oʻzbek");
    } else if c == "hy"@ {
        reveal_strlit("Հայերեն");
    } else if c == "ka"@ {
        reveal_strlit("ქართული");
    } else if c == "ps"@ {
        reveal_strlit("پښتو");
    } else if c == "sd"@ {
        reveal_strlit("سنڌي");
    } else if c == "ug"@ {
        reveal_strlit("ئۇيغۇرچە");
    } else if c == "tt"@ {
        reveal_strlit("Татар");
    }
}

/// A code that the table does not list is its own name.
pub proof fn law_language_unlisted_code_kept(c: Seq<char>)
    requires
        !is_language_code(c),
    ensures
        language_name(c) == c,
{
}

/// Two listed codes with the same language name are the same code: no two
/// languages of the table share a name.
pub proof fn law_language_names_distinct(c1: Seq<char>, c2: Seq<char>)
    requires
        is_language_code(c1),
        is_language_code(c2),
        language_name(c1) == language_name(c2),
    ensures
        c1 == c2,
{
    lemma_language_name_leads_back(c1);
    lemma_language_name_leads_back(c2);
}

/// The language names of the table, code by code.
pub proof fn law_language_table()
    ensures
        language_name("en"@) == "English"@,
        language_name("de"@) == "Deutsch"@,
        language_name("fr"@) == "Français"@,
        language_name("es"@) == "Español"@,
        language_name("it"@) == "Italiano"@,
        language_name("pt"@) == "Português"@,
        language_name("ru"@) == "Русский"@,
        language_name("ja"@) == "日本語"@,
        language_name("zh"@) == "中文"@,
        language_name("ko"@) == "한국어"@,
        language_name("ar"@) == "العربية"@,
        language_name("nl"@) == "Nederlands"@,
        language_name("pl"@) == "Polski"@,
        language_name("tr"@) == "Türkçe"@,
        language_name("sv"@) == "Svenska"@,
        language_name("da"@) == "Dansk"@,
        language_name("fi"@) == "Suomi"@,
        language_name("nb"@) == "Norsk"@,
        language_name("cs"@) == "Čeština"@,
        language_name("sk"@) == "Slovenčina"@,
        language_name("hu"@) == "Magyar"@,
        language_name("ro"@) == "Română"@,
        language_name("bg"@) == "Български"@,
        language_name("uk"@) == "Українська"@,
        language_name("el"@) == "Ελληνικά"@,
        language_name("he"@) == "עברית"@,
        language_name("hi"@) == "हिन्दी"@,
        language_name("th"@) == "ไทย"@,
        language_name("vi"@) == "Tiếng Việt"@,
        language_name("id"@) == "Bahasa Indonesia"@,
        language_name("ms"@) == "Bahasa Melayu"@,
        language_name("bn"@) == "বাংলা"@,
        language_name("ta"@) == "தமிழ்"@,
        language_name("te"@) == "తెలుగు"@,
        language_name("mr"@) == "मराठी"@,
        language_name("gu"@) == "ગુજરાતી"@,
        language_name("kn"@) == "ಕನ್ನಡ"@,
        language_name("ml"@) == "മലയാളം"@,
        language_name("si"@) == "සිංහල"@,
        language_name("ne"@) == "नेपाली"@,
        language_name("fa"@) == "فارسی"@,
        language_name("ur"@) == "اردو"@,
        language_name("ca"@) == "Català"@,
        language_name("eu"@) == "Euskara"@,
        language_name("gl"@) == "Galego"@,
        language_name("hr"@) == "Hrvatski"@,
        language_name("sr"@) == "Српски"@,
        language_name("sl"@) == "Slovenščina"@,
        language_name("lt"@) == "Lietuvių"@,
        language_name("lv"@) == "Latviešu"@,
        language_name("et"@) == "Eesti"@,
        language_name("sq"@) == "Shqip"@,
        language_name("mk"@) == "Македонски"@,
        language_name("bs"@) == "Bosanski"@,
        language_name("is"@) == "Íslenska"@,
        language_name("ga"@) == "Gaeilge"@,
        language_name("cy"@) == "Cymraeg"@,
        language_name("mt"@) == "Malti"@,
        language_name("af"@) == "Afrikaans"@,
        language_name("sw"@) == "Kiswahili"@,
        language_name("am"@) == "አማርኛ"@,
        language_name("my"@) == "မြန်မာဘာသာ"@,
        language_name("km"@) == "ភាសាខ្មែរ"@,
        language_name("lo"@) == "ລາວ"@,
        language_name("mn"@) == "Монгол"@,
        language_name("bo"@) == "བོད་སྐད"@,
        language_name("kk"@) == "Қазақ"@,
        language_name("ky"@) == "Кыргыз"@,
        language_name("tg"@) == "Тоҷикӣ"@,
        language_name("tk"@) == "Türkmen"@,
        language_name("uz"@) == "Oʻzbek"@,
        language_name("hy"@) == "Հայերեն"@,
        language_name("ka"@) == "ქართული"@,
        language_name("ps"@) == "پښتو"@,
        language_name("sd"@) == "سنڌي"@,
        language_name("ug"@) == "ئۇيغۇرچە"@,
        language_name("tt"@) == "Татар"@,
{
    reveal_strlit("en");
    assert("en"@[0] == 'e' && "en"@[1] == 'n');
    reveal_strlit("de");
    assert("de"@[0] == 'd' && "de"@[1] == 'e');
    reveal_strlit("fr");
    assert("fr"@[0] == 'f' && "fr"@[1] == 'r');
    reveal_strlit("es");
    assert("es"@[0] == 'e' && "es"@[1] == 's');
    reveal_strlit("it");
    assert("it"@[0] == 'i' && "it"@[1] == 't');
    reveal_strlit("pt");
    assert("pt"@[0] == 'p' && "pt"@[1] == 't');
    reveal_strlit("ru");
    assert("ru"@[0] == 'r' && "ru"@[1] == 'u');
    reveal_strlit("ja");
    assert("ja"@[0] == 'j' && "ja"@[1] == 'a');
    reveal_strlit("zh");
    assert("zh"@[0] == 'z' && "zh"@[1] == 'h');
    reveal_strlit("ko");
    assert("ko"@[0] == 'k' && "ko"@[1] == 'o');
    reveal_strlit("ar");
    assert("ar"@[0] == 'a' && "ar"@[1] == 'r');
    reveal_strlit("nl");
    assert("nl"@[0] == 'n' && "nl"@[1] == 'l');
    reveal_strlit("pl");
    assert("pl"@[0] == 'p' && "pl"@[1] == 'l');
    reveal_strlit("tr");
    assert("tr"@[0] == 't' && "tr"@[1] == 'r');
    reveal_strlit("sv");
    assert("sv"@[0] == 's' && "sv"@[1] == 'v');
    reveal_strlit("da");
    assert("da"@[0] == 'd' && "da"@[1] == 'a');
    reveal_strlit("fi");
    assert("fi"@[0] == 'f' && "fi"@[1] == 'i');
    reveal_strlit("nb");
    assert("nb"@[0] == 'n' && "nb"@[1] == 'b');
    reveal_strlit("cs");
    assert("cs"@[0] == 'c' && "cs"@[1] == 's');
    reveal_strlit("sk");
    assert("sk"@[0] == 's' && "sk"@[1] == 'k');
    reveal_strlit("hu");
    assert("hu"@[0] == 'h' && "hu"@[1] == 'u');
    reveal_strlit("ro");
    assert("ro"@[0] == 'r' && "ro"@[1] == 'o');
    reveal_strlit("bg");
    assert("bg"@[0] == 'b' && "bg"@[1] == 'g');
    reveal_strlit("uk");
    assert("uk"@[0] == 'u' && "uk"@[1] == 'k');
    reveal_strlit("el");
    assert("el"@[0] == 'e' && "el"@[1] == 'l');
    reveal_strlit("he");
    assert("he"@[0] == 'h' && "he"@[1] == 'e');
    reveal_strlit("hi");
    assert("hi"@[0] == 'h' && "hi"@[1] == 'i');
    reveal_strlit("th");
    assert("th"@[0] == 't' && "th"@[1] == 'h');
    reveal_strlit("vi");
    assert("vi"@[0] == 'v' && "vi"@[1] == 'i');
    reveal_strlit("id");
    assert("id"@[0] == 'i' && "id"@[1] == 'd');
    reveal_strlit("ms");
    assert("ms"@[0] == 'm' && "ms"@[1] == 's');
    reveal_strlit("bn");
    assert("bn"@[0] == 'b' && "bn"@[1] == 'n');
    reveal_strlit("ta");
    assert("ta"@[0] == 't' && "ta"@[1] == 'a');
    reveal_strlit("te");
    assert("te"@[0] == 't' && "te"@[1] == 'e');
    reveal_strlit("mr");
    assert("mr"@[0] == 'm' && "mr"@[1] == 'r');
    reveal_strlit("gu");
    assert("gu"@[0] == 'g' && "gu"@[1] == 'u');
    reveal_strlit("kn");
    assert("kn"@[0] == 'k' && "kn"@[1] == 'n');
    reveal_strlit("ml");
    assert("ml"@[0] == 'm' && "ml"@[1] == 'l');
    reveal_strlit("si");
    assert("si"@[0] == 's' && "si"@[1] == 'i');
    reveal_strlit("ne");
    assert("ne"@[0] == 'n' && "ne"@[1] == 'e');
    reveal_strlit("fa");
    assert("fa"@[0] == 'f' && "fa"@[1] == 'a');
    reveal_strlit("ur");
    assert("ur"@[0] == 'u' && "ur"@[1] == 'r');
    reveal_strlit("ca");
    assert("ca"@[0] == 'c' && "ca"@[1] == 'a');
    reveal_strlit("eu");
    assert("eu"@[0] == 'e' && "eu"@[1] == 'u');
    reveal_strlit("gl");
    assert("gl"@[0] == 'g' && "gl"@[1] == 'l');
    reveal_strlit("hr");
    assert("hr"@[0] == 'h' && "hr"@[1] == 'r');
    reveal_strlit("sr");
    assert("sr"@[0] == 's' && "sr"@[1] == 'r');
    reveal_strlit("sl");
    assert("sl"@[0] == 's' && "sl"@[1] == 'l');
    reveal_strlit("lt");
    assert("lt"@[0] == 'l' && "lt"@[1] == 't');
    reveal_strlit("lv");
    assert("lv"@[0] == 'l' && "lv"@[1] == 'v');
    reveal_strlit("et");
    assert("et"@[0] == 'e' && "et"@[1] == 't');
    reveal_strlit("sq");
    assert("sq"@[0] == 's' && "sq"@[1] == 'q');
    reveal_strlit("mk");
    assert("mk"@[0] == 'm' && "mk"@[1] == 'k');
    reveal_strlit("bs");
    assert("bs"@[0] == 'b' && "bs"@[1] == 's');
    reveal_strlit("is");
    assert("is"@[0] == 'i' && "is"@[1] == 's');
    reveal_strlit("ga");
    assert("ga"@[0] == 'g' && "ga"@[1] == 'a');
    reveal_strlit("cy");
    assert("cy"@[0] == 'c' && "cy"@[1] == 'y');
    reveal_strlit("mt");
    assert("mt"@[0] == 'm' && "mt"@[1] == 't');
    reveal_strlit("af");
    assert("af"@[0] == 'a' && "af"@[1] == 'f');
    reveal_strlit("sw");
    assert("sw"@[0] == 's' && "sw"@[1] == 'w');
    reveal_strlit("am");
    assert("am"@[0] == 'a' && "am"@[1] == 'm');
    reveal_strlit("my");
    assert("my"@[0] == 'm' && "my"@[1] == 'y');
    reveal_strlit("km");
    assert("km"@[0] == 'k' && "km"@[1] == 'm');
    reveal_strlit("lo");
    assert("lo"@[0] == 'l' && "lo"@[1] == 'o');
    reveal_strlit("mn");
    assert("mn"@[0] == 'm' && "mn"@[1] == 'n');
    reveal_strlit("bo");
    assert("bo"@[0] == 'b' && "bo"@[1] == 'o');
    reveal_strlit("kk");
    assert("kk"@[0] == 'k' && "kk"@[1] == 'k');
    reveal_strlit("ky");
    assert("ky"@[0] == 'k' && "ky"@[1] == 'y');
    reveal_strlit("tg");
    assert("tg"@[0] == 't' && "tg"@[1] == 'g');
    reveal_strlit("tk");
    assert("tk"@[0] == 't' && "tk"@[1] == 'k');
    reveal_strlit("uz");
    assert("uz"@[0] == 'u' && "uz"@[1] == 'z');
    reveal_strlit("hy");
    assert("hy"@[0] == 'h' && "hy"@[1] == 'y');
    reveal_strlit("ka");
    assert("ka"@[0] == 'k' && "ka"@[1] == 'a');
    reveal_strlit("ps");
    assert("ps"@[0] == 'p' && "ps"@[1] == 's');
    reveal_strlit("sd");
    assert("sd"@[0] == 's' && "sd"@[1] == 'd');
    reveal_strlit("ug");
    assert("ug"@[0] == 'u' && "ug"@[1] == 'g');
    reveal_strlit("tt");
    assert("tt"@[0] == 't' && "tt"@[1] == 't');
}

/// Whether `c` is one of the countries codes that the table lists.
pub open spec fn is_country_code(c: Seq<char>) -> bool {
    c == "US"@ || c == "GB"@ || c == "DE"@ || c == "FR"@ || c == "ES"@ || c == "IT"@ || c == "PT"@ || c == "BR"@ || c == "RU"@ || c == "JP"@ || c == "CN"@ || c == "KR"@ || c == "SA"@ || c == "AE"@ || c == "NL"@ || c == "PL"@ || c == "TR"@ || c == "SE"@ || c == "DK"@ || c == "FI"@ || c == "NO"@ || c == "CZ"@ || c == "SK"@ || c == "HU"@ || c == "RO"@ || c == "BG"@ || c == "GR"@ || c == "IL"@ || c == "IN"@ || c == "TH"@ || c == "VN"@ || c == "ID"@ || c == "MY"@ || c == "BD"@ || c == "HK"@ || c == "TW"@ || c == "SG"@ || c == "CH"@ || c == "AT"@ || c == "BE"@ || c == "CA"@ || c == "AU"@ || c == "NZ"@ || c == "ZA"@ || c == "MX"@ || c == "AR"@ || c == "CL"@ || c == "CO"@ || c == "PE"@ || c == "UA"@ || c == "EG"@ || c == "MA"@ || c == "NG"@ || c == "KE"@ || c == "PH"@ || c == "PK"@ || c == "IR"@ || c == "IQ"@ || c == "DZ"@ || c == "TN"@
}

/// The listed code whose country name has the length, first two characters and last character of `name`.
spec fn country_code_by_key(name: Seq<char>) -> Seq<char> {
    if name.len() == 13 && name[0] == 'U' && name[1] == 'n' && name[name.len() - 1] == 's' {
        "US"@
    } else if name.len() == 2 && name[0] == 'U' && name[1] == 'K' && name[name.len() - 1] == 'K' {
        "GB"@
    } else if name.len() == 7 && name[0] == 'G' && name[1] == 'e' && name[name.len() - 1] == 'y' {
        "DE"@
    } else if name.len() == 6 && name[0] == 'F' && name[1] == 'r' && name[name.len() - 1] == 'e' {
        "FR"@
    } else if name.len() == 5 && name[0] == 'S' && name[1] == 'p' && name[name.len() - 1] == 'n' {
        "ES"@
    } else if name.len() == 5 && name[0] == 'I' && name[1] == 't' && name[name.len() - 1] == 'y' {
        "IT"@
    } else if name.len() == 8 && name[0] == 'P' && name[1] == 'o' && name[name.len() - 1] == 'l' {
        "PT"@
    } else if name.len() == 6 && name[0] == 'B' && name[1] == 'r' && name[name.len() - 1] == 'l' {
        "BR"@
    } else if name.len() == 6 && name[0] == 'R' && name[1] == 'u' && name[name.len() - 1] == 'a' {
        "RU"@
    } else if name.len() == 5 && name[0] == 'J' && name[1] == 'a' && name[name.len() - 1] == 'n' {
        "JP"@
    } else if name.len() == 5 && name[0] == 'C' && name[1] == 'h' && name[name.len() - 1] == 'a' {
        "CN"@
    } else if name.len() == 11 && name[0] == 'S' && name[1] == 'o' && name[name.len() - 1] == 'a' {
        "KR"@
    } else if name.len() == 12 && name[0] == 'S' && name[1] == 'a' && name[name.len() - 1] == 'a' {
        "SA"@
    } else if name.len() == 3 && name[0] == 'U' && name[1] == 'A' && name[name.len() - 1] == 'E' {
        "AE"@
    } else if name.len() == 11 && name[0] == 'N' && name[1] == 'e' && name[name.len() - 1] == 's' {
        "NL"@
    } else if name.len() == 6 && name[0] == 'P' && name[1] == 'o' && name[name.len() - 1] == 'd' {
        "PL"@
    } else if name.len() == 6 && name[0] == 'T' && name[1] == 'u' && name[name.len() - 1] == 'y' {
        "TR"@
    } else if name.len() == 6 && name[0] == 'S' && name[1] == 'w' && name[name.len() - 1] == 'n' {
        "SE"@
    } else if name.len() == 7 && name[0] == 'D' && name[1] == 'e' && name[name.len() - 1] == 'k' {
        "DK"@
    } else if name.len() == 7 && name[0] == 'F' && name[1] == 'i' && name[name.len() - 1] == 'd' {
        "FI"@
    } else if name.len() == 6 && name[0] == 'N' && name[1] == 'o' && name[name.len() - 1] == 'y' {
        "NO"@
    } else if name.len() == 7 && name[0] == 'C' && name[1] == 'z' && name[name.len() - 1] == 'a' {
        "CZ"@
    } else if name.len() == 8 && name[0] == 'S' && name[1] == 'l' && name[name.len() - 1] == 'a' {
        "SK"@
    } else if name.len() == 7 && name[0] == 'H' && name[1] == 'u' && name[name.len() - 1] == 'y' {
        "HU"@
    } else if name.len() == 7 && name[0] == 'R' && name[1] == 'o' && name[name.len() - 1] == 'a' {
        "RO"@
    } else if name.len() == 8 && name[0] == 'B' && name[1] == 'u' && name[name.len() - 1] == 'a' {
        "BG"@
    } else if name.len() == 6 && name[0] == 'G' && name[1] == 'r' && name[name.len() - 1] == 'e' {
        "GR"@
    } else if name.len() == 6 && name[0] == 'I' && name[1] == 's' && name[name.len() - 1] == 'l' {
        "IL"@
    } else if name.len() == 5 && name[0] == 'I' && name[1] == 'n' && name[name.len() - 1] == 'a' {
        "IN"@
    } else if name.len() == 8 && name[0] == 'T' && name[1] == 'h' && name[name.len() - 1] == 'd' {
        "TH"@
    } else if name.len() == 7 && name[0] == 'V' && name[1] == 'i' && name[name.len() - 1] == 'm' {
        "VN"@
    } else if name.len() == 9 && name[0] == 'I' && name[1] == 'n' && name[name.len() - 1] == 'a' {
        "ID"@
    } else if name.len() == 8 && name[0] == 'M' && name[1] == 'a' && name[name.len() - 1] == 'a' {
        "MY"@
    } else if name.len() == 10 && name[0] == 'B' && name[1] == 'a' && name[name.len() - 1] == 'h' {
        "BD"@
    } else if name.len() == 9 && name[0] == 'H' && name[1] == 'o' && name[name.len() - 1] == 'g' {
        "HK"@
    } else if name.len() == 6 && name[0] == 'T' && name[1] == 'a' && name[name.len() - 1] == 'n' {
        "TW"@
    } else if name.len() == 9 && name[0] == 'S' && name[1] == 'i' && name[name.len() - 1] == 'e' {
        "SG"@
    } else if name.len() == 11 && name[0] == 'S' && name[1] == 'w' && name[name.len() - 1] == 'd' {
        "CH"@
    } else if name.len() == 7 && name[0] == 'A' && name[1] == 'u' && name[name.len() - 1] == 'a' {
        "AT"@
    } else if name.len() == 7 && name[0] == 'B' && name[1] == 'e' && name[name.len() - 1] == 'm' {
        "BE"@
    } else if name.len() == 6 && name[0] == 'C' && name[1] == 'a' && name[name.len() - 1] == 'a' {
        "CA"@
    } else if name.len() == 9 && name[0] == 'A' && name[1] == 'u' && name[name.len() - 1] == 'a' {
        "AU"@
    } else if name.len() == 11 && name[0] == 'N' && name[1] == 'e' && name[name.len() - 1] == 'd' {
        "NZ"@
    } else if name.len() == 12 && name[0] == 'S' && name[1] == 'o' && name[name.len() - 1] == 'a' {
        "ZA"@
    } else if name.len() == 6 && name[0] == 'M' && name[1] == 'e' && name[name.len() - 1] == 'o' {
        "MX"@
    } else if name.len() == 9 && name[0] == 'A' && name[1] == 'r' && name[name.len() - 1] == 'a' {
        "AR"@
    } else if name.len() == 5 && name[0] == 'C' && name[1] == 'h' && name[name.len() - 1] == 'e' {
        "CL"@
    } else if name.len() == 8 && name[0] == 'C' && name[1] == 'o' && name[name.len() - 1] == 'a' {
        "CO"@
    } else if name.len() == 4 && name[0] == 'P' && name[1] == 'e' && name[name.len() - 1] == 'u' {
        "PE"@
    } else if name.len() == 7 && name[0] == 'U' && name[1] == 'k' && name[name.len() - 1] == 'e' {
        "UA"@
    } else if name.len() == 5 && name[0] == 'E' && name[1] == 'g' && name[name.len() - 1] == 't' {
        "EG"@
    } else if name.len() == 7 && name[0] == 'M' && name[1] == 'o' && name[name.len() - 1] == 'o' {
        "MA"@
    } else if name.len() == 7 && name[0] == 'N' && name[1] == 'i' && name[name.len() - 1] == 'a' {
        "NG"@
    } else if name.len() == 5 && name[0] == 'K' && name[1] == 'e' && name[name.len() - 1] == 'a' {
        "KE"@
    } else if name.len() == 11 && name[0] == 'P' && name[1] == 'h' && name[name.len() - 1] == 's' {
        "PH"@
    } else if name.len() == 8 && name[0] == 'P' && name[1] == 'a' && name[name.len() - 1] == 'n' {
        "PK"@
    } else if name.len() == 4 && name[0] == 'I' && name[1] == 'r' && name[name.len() - 1] == 'n' {
        "IR"@
    } else if name.len() == 4 && name[0] == 'I' && name[1] == 'r' && name[name.len() - 1] == 'q' {
        "IQ"@
    } else if name.len() == 7 && name[0] == 'A' && name[1] == 'l' && name[name.len() - 1] == 'a' {
        "DZ"@
    } else if name.len() == 7 && name[0] == 'T' && name[1] == 'u' && name[name.len() - 1] == 'a' {
        "TN"@
    } else {
        name
    }
}

/// The name of a listed code leads back to that code.
proof fn lemma_country_name_leads_back(c: Seq<char>)
    requires
        is_country_code(c),
    ensures
        country_code_by_key(country_label(c)) == c,
{
    if c == "US"@ {
        reveal_strlit("United States");
    } else if c == "GB"@ {
        reveal_strlit("UK");
    } else if c == "DE"@ {
        reveal_strlit("Germany");
    } else if c == "FR"@ {
        reveal_strlit("France");
    } else if c == "ES"@ {
        reveal_strlit("Spain");
    } else if c == "IT"@ {
        reveal_strlit("Italy");
    } else if c == "PT"@ {
        reveal_strlit("Portugal");
    } else if c == "BR"@ {
        reveal_strlit("Brazil");
    } else if c == "RU"@ {
        reveal_strlit("Russia");
    } else if c == "JP"@ {
        reveal_strlit("Japan");
    } else if c == "CN"@ {
        reveal_strlit("China");
    } else if c == "KR"@ {
        reveal_strlit("South Korea");
    } else if c == "SA"@ {
        reveal_strlit("Saudi Arabia");
    } else if c == "AE"@ {
        reveal_strlit("UAE");
    } else if c == "NL"@ {
        reveal_strlit("Netherlands");
    } else if c == "PL"@ {
        reveal_strlit("Poland");
    } else if c == "TR"@ {
        reveal_strlit("Turkey");
    } else if c == "SE"@ {
        reveal_strlit("Sweden");
    } else if c == "DK"@ {
        reveal_strlit("Denmark");
    } else if c == "FI"@ {
        reveal_strlit("Finland");
    } else if c == "NO"@ {
        reveal_strlit("Norway");
    } else if c == "CZ"@ {
        reveal_strlit("Czechia");
    } else if c == "SK"@ {
        reveal_strlit("Slovakia");
    } else if c == "HU"@ {
        reveal_strlit("Hungary");
    } else if c == "RO"@ {
        reveal_strlit("Romania");
    } else if c == "BG"@ {
        reveal_strlit("Bulgaria");
    } else if c == "GR"@ {
        reveal_strlit("Greece");
    } else if c == "IL"@ {
        reveal_strlit("Israel");
    } else if c == "IN"@ {
        reveal_strlit("India");
    } else if c == "TH"@ {
        reveal_strlit("Thailand");
    } else if c == "VN"@ {
        reveal_strlit("Vietnam");
    } else if c == "ID"@ {
        reveal_strlit("Indonesia");
    } else if c == "MY"@ {
        reveal_strlit("Malaysia");
    } else if c == "BD"@ {
        reveal_strlit("Bangladesh");
    } else if c == "HK"@ {
        reveal_strlit("Hong Kong");
    } else if c == "TW"@ {
        reveal_strlit("Taiwan");
    } else if c == "SG"@ {
        reveal_strlit("Singapore");
    } else if c == "CH"@ {
        reveal_strlit("Switzerland");
    } else if c == "AT"@ {
        reveal_strlit("Austria");
    } else if c == "BE"@ {
        reveal_strlit("Belgium");
    } else if c == "CA"@ {
        reveal_strlit("Canada");
    } else if c == "AU"@ {
        reveal_strlit("Australia");
    } else if c == "NZ"@ {
        reveal_strlit("New Zealand");
    } else if c == "ZA"@ {
        reveal_strlit("South Africa");
    } else if c == "MX"@ {
        reveal_strlit("Mexico");
    } else if c == "AR"@ {
        reveal_strlit("Argentina");
    } else if c == "CL"@ {
        reveal_strlit("Chile");
    } else if c == "CO"@ {
        reveal_strlit("Colombia");
    } else if c == "PE"@ {
        reveal_strlit("Peru");
    } else if c == "UA"@ {
        reveal_strlit("Ukraine");
    } else if c == "EG"@ {
        reveal_strlit("Egypt");
    } else if c == "MA"@ {
        reveal_strlit("Morocco");
    } else if c == "NG"@ {
        reveal_strlit("Nigeria");
    } else if c == "KE"@ {
        reveal_strlit("Kenya");
    } else if c == "PH"@ {
        reveal_strlit("Philippines");
    } else if c == "PK"@ {
        reveal_strlit("Pakistan");
    } else if c == "IR"@ {
        reveal_strlit("Iran");
    } else if c == "IQ"@ {
        reveal_strlit("Iraq");
    } else if c == "DZ"@ {
        reveal_strlit("Algeria");
    } else if c == "TN"@ {
        reveal_strlit("Tunisia");
    }
}

/// A code that the table does not list is its own name.
pub proof fn law_country_unlisted_code_kept(c: Seq<char>)
    requires
        !is_country_code(c),
    ensures
        country_label(c) == c,
{
}

/// Two listed codes with the same country name are the same code: no two
/// countries of the table share a name.
pub proof fn law_country_names_distinct(c1: Seq<char>, c2: Seq<char>)
    requires
        is_country_code(c1),
        is_country_code(c2),
        country_label(c1) == country_label(c2),
    ensures
        c1 == c2,
{
    lemma_country_name_leads_back(c1);
    lemma_country_name_leads_back(c2);
}

/// The country names of the table, code by code.
pub proof fn law_country_table()
    ensures
        country_label("US"@) == "United States"@,
        country_label("GB"@) == "UK"@,
        country_label("DE"@) == "Germany"@,
        country_label("FR"@) == "France"@,
        country_label("ES"@) == "Spain"@,
        country_label("IT"@) == "Italy"@,
        country_label("PT"@) == "Portugal"@,
        country_label("BR"@) == "Brazil"@,
        country_label("RU"@) == "Russia"@,
        country_label("JP"@) == "Japan"@,
        country_label("CN"@) == "China"@,
        country_label("KR"@) == "South Korea"@,
        country_label("SA"@) == "Saudi Arabia"@,
        country_label("AE"@) == "UAE"@,
        country_label("NL"@) == "Netherlands"@,
        country_label("PL"@) == "Poland"@,
        country_label("TR"@) == "Turkey"@,
        country_label("SE"@) == "Sweden"@,
        country_label("DK"@) == "Denmark"@,
        country_label("FI"@) == "Finland"@,
        country_label("NO"@) == "Norway"@,
        country_label("CZ"@) == "Czechia"@,
        country_label("SK"@) == "Slovakia"@,
        country_label("HU"@) == "Hungary"@,
        country_label("RO"@) == "Romania"@,
        country_label("BG"@) == "Bulgaria"@,
        country_label("GR"@) == "Greece"@,
        country_label("IL"@) == "Israel"@,
        country_label("IN"@) == "India"@,
        country_label("TH"@) == "Thailand"@,
        country_label("VN"@) == "Vietnam"@,
        country_label("ID"@) == "Indonesia"@,
        country_label("MY"@) == "Malaysia"@,
        country_label("BD"@) == "Bangladesh"@,
        country_label("HK"@) == "Hong Kong"@,
        country_label("TW"@) == "Taiwan"@,
        country_label("SG"@) == "Singapore"@,
        country_label("CH"@) == "Switzerland"@,
        country_label("AT"@) == "Austria"@,
        country_label("BE"@) == "Belgium"@,
        country_label("CA"@) == "Canada"@,
        country_label("AU"@) == "Australia"@,
        country_label("NZ"@) == "New Zealand"@,
        country_label("ZA"@) == "South Africa"@,
        country_label("MX"@) == "Mexico"@,
        country_label("AR"@) == "Argentina"@,
        country_label("CL"@) == "Chile"@,
        country_label("CO"@) == "Colombia"@,
        country_label("PE"@) == "Peru"@,
        country_label("UA"@) == "Ukraine"@,
        country_label("EG"@) == "Egypt"@,
        country_label("MA"@) == "Morocco"@,
        country_label("NG"@) == "Nigeria"@,
        country_label("KE"@) == "Kenya"@,
        country_label("PH"@) == "Philippines"@,
        country_label("PK"@) == "Pakistan"@,
        country_label("IR"@) == "Iran"@,
        country_label("IQ"@) == "Iraq"@,
        country_label("DZ"@) == "Algeria"@,
        country_label("TN"@) == "Tunisia"@,
{
    reveal_strlit("US");
    assert("US"@[0] == 'U' && "US"@[1] == 'S');
    reveal_strlit("GB");
    assert("GB"@[0] == 'G' && "GB"@[1] == 'B');
    reveal_strlit("DE");
    assert("DE"@[0] == 'D' && "DE"@[1] == 'E');
    reveal_strlit("FR");
    assert("FR"@[0] == 'F' && "FR"@[1] == 'R');
    reveal_strlit("ES");
    assert("ES"@[0] == 'E' && "ES"@[1] == 'S');
    reveal_strlit("IT");
    assert("IT"@[0] == 'I' && "IT"@[1] == 'T');
    reveal_strlit("PT");
    assert("PT"@[0] == 'P' && "PT"@[1] == 'T');
    reveal_strlit("BR");
    assert("BR"@[0] == 'B' && "BR"@[1] == 'R');
    reveal_strlit("RU");
    assert("RU"@[0] == 'R' && "RU"@[1] == 'U');
    reveal_strlit("JP");
    assert("JP"@[0] == 'J' && "JP"@[1] == 'P');
    reveal_strlit("CN");
    assert("CN"@[0] == 'C' && "CN"@[1] == 'N');
    reveal_strlit("KR");
    assert("KR"@[0] == 'K' && "KR"@[1] == 'R');
    reveal_strlit("SA");
    assert("SA"@[0] == 'S' && "SA"@[1] == 'A');
    reveal_strlit("AE");
    assert("AE"@[0] == 'A' && "AE"@[1] == 'E');
    reveal_strlit("NL");
    assert("NL"@[0] == 'N' && "NL"@[1] == 'L');
    reveal_strlit("PL");
    assert("PL"@[0] == 'P' && "PL"@[1] == 'L');
    reveal_strlit("TR");
    assert("TR"@[0] == 'T' && "TR"@[1] == 'R');
    reveal_strlit("SE");
    assert("SE"@[0] == 'S' && "SE"@[1] == 'E');
    reveal_strlit("DK");
    assert("DK"@[0] == 'D' && "DK"@[1] == 'K');
    reveal_strlit("FI");
    assert("FI"@[0] == 'F' && "FI"@[1] == 'I');
    reveal_strlit("NO");
    assert("NO"@[0] == 'N' && "NO"@[1] == 'O');
    reveal_strlit("CZ");
    assert("CZ"@[0] == 'C' && "CZ"@[1] == 'Z');
    reveal_strlit("SK");
    assert("SK"@[0] == 'S' && "SK"@[1] == 'K');
    reveal_strlit("HU");
    assert("HU"@[0] == 'H' && "HU"@[1] == 'U');
    reveal_strlit("RO");
    assert("RO"@[0] == 'R' && "RO"@[1] == 'O');
    reveal_strlit("BG");
    assert("BG"@[0] == 'B' && "BG"@[1] == 'G');
    reveal_strlit("GR");
    assert("GR"@[0] == 'G' && "GR"@[1] == 'R');
    reveal_strlit("IL");
    assert("IL"@[0] == 'I' && "IL"@[1] == 'L');
    reveal_strlit("IN");
    assert("IN"@[0] == 'I' && "IN"@[1] == 'N');
    reveal_strlit("TH");
    assert("TH"@[0] == 'T' && "TH"@[1] == 'H');
    reveal_strlit("VN");
    assert("VN"@[0] == 'V' && "VN"@[1] == 'N');
    reveal_strlit("ID");
    assert("ID"@[0] == 'I' && "ID"@[1] == 'D');
    reveal_strlit("MY");
    assert("MY"@[0] == 'M' && "MY"@[1] == 'Y');
    reveal_strlit("BD");
    assert("BD"@[0] == 'B' && "BD"@[1] == 'D');
    reveal_strlit("HK");
    assert("HK"@[0] == 'H' && "HK"@[1] == 'K');
    reveal_strlit("TW");
    assert("TW"@[0] == 'T' && "TW"@[1] == 'W');
    reveal_strlit("SG");
    assert("SG"@[0] == 'S' && "SG"@[1] == 'G');
    reveal_strlit("CH");
    assert("CH"@[0] == 'C' && "CH"@[1] == 'H');
    reveal_strlit("AT");
    assert("AT"@[0] == 'A' && "AT"@[1] == 'T');
    reveal_strlit("BE");
    assert("BE"@[0] == 'B' && "BE"@[1] == 'E');
    reveal_strlit("CA");
    assert("CA"@[0] == 'C' && "CA"@[1] == 'A');
    reveal_strlit("AU");
    assert("AU"@[0] == 'A' && "AU"@[1] == 'U');
    reveal_strlit("NZ");
    assert("NZ"@[0] == 'N' && "NZ"@[1] == 'Z');
    reveal_strlit("ZA");
    assert("ZA"@[0] == 'Z' && "ZA"@[1] == 'A');
    reveal_strlit("MX");
    assert("MX"@[0] == 'M' && "MX"@[1] == 'X');
    reveal_strlit("AR");
    assert("AR"@[0] == 'A' && "AR"@[1] == 'R');
    reveal_strlit("CL");
    assert("CL"@[0] == 'C' && "CL"@[1] == 'L');
    reveal_strlit("CO");
    assert("CO"@[0] == 'C' && "CO"@[1] == 'O');
    reveal_strlit("PE");
    assert("PE"@[0] == 'P' && "PE"@[1] == 'E');
    reveal_strlit("UA");
    assert("UA"@[0] == 'U' && "UA"@[1] == 'A');
    reveal_strlit("EG");
    assert("EG"@[0] == 'E' && "EG"@[1] == 'G');
    reveal_strlit("MA");
    assert("MA"@[0] == 'M' && "MA"@[1] == 'A');
    reveal_strlit("NG");
    assert("NG"@[0] == 'N' && "NG"@[1] == 'G');
    reveal_strlit("KE");
    assert("KE"@[0] == 'K' && "KE"@[1] == 'E');
    reveal_strlit("PH");
    assert("PH"@[0] == 'P' && "PH"@[1] == 'H');
    reveal_strlit("PK");
    assert("PK"@[0] == 'P' && "PK"@[1] == 'K');
    reveal_strlit("IR");
    assert("IR"@[0] == 'I' && "IR"@[1] == 'R');
    reveal_strlit("IQ");
    assert("IQ"@[0] == 'I' && "IQ"@[1] == 'Q');
    reveal_strlit("DZ");
    assert("DZ"@[0] == 'D' && "DZ"@[1] == 'Z');
    reveal_strlit("TN");
    assert("TN"@[0] == 'T' && "TN"@[1] == 'N');
}

/// The native name of a language (see `language_name`).
pub fn lang_name<'a>(code: &'a str) -> (name: &'a str)
    ensures
        name@ == language_name(code@),
{
    if str_eq(code, "en") {
        "English"
    } else if str_eq(code, "de") {
        "Deutsch"
    } else if str_eq(code, "fr") {
        "Français"
    } else if str_eq(code, "es") {
        "Español"
    } else if str_eq(code, "it") {
        "Italiano"
    } else if str_eq(code, "pt") {
        "Português"
    } else if str_eq(code, "ru") {
        "Русский"
    } else if str_eq(code, "ja") {
        "日本語"
    } else if str_eq(code, "zh") {
        "中文"
    } else if str_eq(code, "ko") {
        "한국어"
    } else if str_eq(code, "ar") {
        "العربية"
    } else if str_eq(code, "nl") {
        "Nederlands"
    } else if str_eq(code, "pl") {
        "Polski"
    } else if str_eq(code, "tr") {
        "Türkçe"
    } else if str_eq(code, "sv") {
        "Svenska"
    } else if str_eq(code, "da") {
        "Dansk"
    } else if str_eq(code, "fi") {
        "Suomi"
    } else if str_eq(code, "nb") {
        "Norsk"
    } else if str_eq(code, "cs") {
        "Čeština"
    } else if str_eq(code, "sk") {
        "Slovenčina"
    } else if str_eq(code, "hu") {
        "Magyar"
    } else if str_eq(code, "ro") {
        "Română"
    } else if str_eq(code, "bg") {
        "Български"
    } else if str_eq(code, "uk") {
        "Українська"
    } else if str_eq(code, "el") {
        "Ελληνικά"
    } else if str_eq(code, "he") {
        "עברית"
    } else if str_eq(code, "hi") {
        "हिन्दी"
    } else if str_eq(code, "th") {
        "ไทย"
    } else if str_eq(code, "vi") {
        "Tiếng Việt"
    } else if str_eq(code, "id") {
        "Bahasa Indonesia"
    } else if str_eq(code, "ms") {
        "Bahasa Melayu"
    } else if str_eq(code, "bn") {
        "বাংলা"
    } else if str_eq(code, "ta") {
        "தமிழ்"
    } else if str_eq(code, "te") {
        "తెలుగు"
    } else if str_eq(code, "mr") {
        "मराठी"
    } else if str_eq(code, "gu") {
        "ગુજરાતી"
    } else if str_eq(code, "kn") {
        "ಕನ್ನಡ"
    } else if str_eq(code, "ml") {
        "മലയാളം"
    } else if str_eq(code, "si") {
        "සිංහල"
    } else if str_eq(code, "ne") {
        "नेपाली"
    } else if str_eq(code, "fa") {
        "فارسی"
    } else if str_eq(code, "ur") {
        "اردو"
    } else if str_eq(code, "ca") {
        "Català"
    } else if str_eq(code, "eu") {
        "Euskara"
    } else if str_eq(code, "gl") {
        "Galego"
    } else if str_eq(code, "hr") {
        "Hrvatski"
    } else if str_eq(code, "sr") {
        "Српски"
    } else if str_eq(code, "sl") {
        "Slovenščina"
    } else if str_eq(code, "lt") {
        "Lietuvių"
    } else if str_eq(code, "lv") {
        "Latviešu"
    } else if str_eq(code, "et") {
        "Eesti"
    } else if str_eq(code, "sq") {
        "Shqip"
    } else if str_eq(code, "mk") {
        "Македонски"
    } else if str_eq(code, "bs") {
        "Bosanski"
    } else if str_eq(code, "is") {
        "Íslenska"
    } else if str_eq(code, "ga") {
        "Gaeilge"
    } else if str_eq(code, "cy") {
        "Cymraeg"
    } else if str_eq(code, "mt") {
        "Malti"
    } else if str_eq(code, "af") {
        "Afrikaans"
    } else if str_eq(code, "sw") {
        "Kiswahili"
    } else if str_eq(code, "am") {
        "አማርኛ"
    } else if str_eq(code, "my") {
        "မြန်မာဘာသာ"
    } else if str_eq(code, "km") {
        "ភាសាខ្មែរ"
    } else if str_eq(code, "lo") {
        "ລາວ"
    } else if str_eq(code, "mn") {
        "Монгол"
    } else if str_eq(code, "bo") {
        "བོད་སྐད"
    } else if str_eq(code, "kk") {
        "Қазақ"
    } else if str_eq(code, "ky") {
        "Кыргыз"
    } else if str_eq(code, "tg") {
        "Тоҷикӣ"
    } else if str_eq(code, "tk") {
        "Türkmen"
    } else if str_eq(code, "uz") {
        "Oʻzbek"
    } else if str_eq(code, "hy") {
        "Հայերեն"
    } else if str_eq(code, "ka") {
        "ქართული"
    } else if str_eq(code, "ps") {
        "پښتو"
    } else if str_eq(code, "sd") {
        "سنڌي"
    } else if str_eq(code, "ug") {
        "ئۇيغۇرچە"
    } else if str_eq(code, "tt") {
        "Татар"
    } else {
        code
    }
}

/// The short name of a country (see `country_label`).
pub fn country_name<'a>(code: &'a str) -> (name: &'a str)
    ensures
        name@ == country_label(code@),
{
    if str_eq(code, "US") {
        "United States"
    } else if str_eq(code, "GB") {
        "UK"
    } else if str_eq(code, "DE") {
        "Germany"
    } else if str_eq(code, "FR") {
        "France"
    } else if str_eq(code, "ES") {
        "Spain"
    } else if str_eq(code, "IT") {
        "Italy"
    } else if str_eq(code, "PT") {
        "Portugal"
    } else if str_eq(code, "BR") {
        "Brazil"
    } else if str_eq(code, "RU") {
        "Russia"
    } else if str_eq(code, "JP") {
        "Japan"
    } else if str_eq(code, "CN") {
        "China"
    } else if str_eq(code, "KR") {
        "South Korea"
    } else if str_eq(code, "SA") {
        "Saudi Arabia"
    } else if str_eq(code, "AE") {
        "UAE"
    } else if str_eq(code, "NL") {
        "Netherlands"
    } else if str_eq(code, "PL") {
        "Poland"
    } else if str_eq(code, "TR") {
        "Turkey"
    } else if str_eq(code, "SE") {
        "Sweden"
    } else if str_eq(code, "DK") {
        "Denmark"
    } else if str_eq(code, "FI") {
        "Finland"
    } else if str_eq(code, "NO") {
        "Norway"
    } else if str_eq(code, "CZ") {
        "Czechia"
    } else if str_eq(code, "SK") {
        "Slovakia"
    } else if str_eq(code, "HU") {
        "Hungary"
    } else if str_eq(code, "RO") {
        "Romania"
    } else if str_eq(code, "BG") {
        "Bulgaria"
    } else if str_eq(code, "GR") {
        "Greece"
    } else if str_eq(code, "IL") {
        "Israel"
    } else if str_eq(code, "IN") {
        "India"
    } else if str_eq(code, "TH") {
        "Thailand"
    } else if str_eq(code, "VN") {
        "Vietnam"
    } else if str_eq(code, "ID") {
        "Indonesia"
    } else if str_eq(code, "MY") {
        "Malaysia"
    } else if str_eq(code, "BD") {
        "Bangladesh"
    } else if str_eq(code, "HK") {
        "Hong Kong"
    } else if str_eq(code, "TW") {
        "Taiwan"
    } else if str_eq(code, "SG") {
        "Singapore"
    } else if str_eq(code, "CH") {
        "Switzerland"
    } else if str_eq(code, "AT") {
        "Austria"
    } else if str_eq(code, "BE") {
        "Belgium"
    } else if str_eq(code, "CA") {
        "Canada"
    } else if str_eq(code, "AU") {
        "Australia"
    } else if str_eq(code, "NZ") {
        "New Zealand"
    } else if str_eq(code, "ZA") {
        "South Africa"
    } else if str_eq(code, "MX") {
        "Mexico"
    } else if str_eq(code, "AR") {
        "Argentina"
    } else if str_eq(code, "CL") {
        "Chile"
    } else if str_eq(code, "CO") {
        "Colombia"
    } else if str_eq(code, "PE") {
        "Peru"
    } else if str_eq(code, "UA") {
        "Ukraine"
    } else if str_eq(code, "EG") {
        "Egypt"
    } else if str_eq(code, "MA") {
        "Morocco"
    } else if str_eq(code, "NG") {
        "Nigeria"
    } else if str_eq(code, "KE") {
        "Kenya"
    } else if str_eq(code, "PH") {
        "Philippines"
    } else if str_eq(code, "PK") {
        "Pakistan"
    } else if str_eq(code, "IR") {
        "Iran"
    } else if str_eq(code, "IQ") {
        "Iraq"
    } else if str_eq(code, "DZ") {
        "Algeria"
    } else if str_eq(code, "TN") {
        "Tunisia"
    } else {
        code
    }
}


/// The part of a locale name before its first `'.'` (the codeset is dropped).
pub open spec fn lang_part(locale: Seq<char>) -> Seq<char> {
    before(locale, '.')
}

/// The language code: the part of `lang_part` before its first `'_'`.
pub open spec fn lang_code(locale: Seq<char>) -> Seq<char> {
    before(lang_part(locale), '_')
}

/// The region code: the second `'_'`-separated field of `lang_part`, empty
/// when there is none.
pub open spec fn region_code(locale: Seq<char>) -> Seq<char> {
    if lang_part(locale).contains('_') {
        before(after(lang_part(locale), '_'), '_')
    } else {
        seq![]
    }
}

/// `" (<country>)"` for a non-empty region code, nothing for an empty one.
pub open spec fn region_suffix(region: Seq<char>) -> Seq<char> {
    if region.len() > 0 {
        " ("@ + country_label(region) + ")"@
    } else {
        seq![]
    }
}

/// The label under which a locale is listed: the language's name, the
/// region's name in brackets when there is a region, a dash, and the locale
/// name itself.
pub open spec fn human_name(locale: Seq<char>) -> Seq<char> {
    language_name(lang_code(locale)) + region_suffix(region_code(locale)) + "  —  "@ + locale
}

/// A label ends with the dash separator and the locale: the character three
/// places before the locale is the dash, and the two on each side of it are
/// spaces.
proof fn lemma_human_name_tail(locale: Seq<char>)
    ensures
        ({
            let h = human_name(locale);
            let n = h.len() as int;
            let k = locale.len() as int;
            &&& n >= k + 5
            &&& h.subrange(n - k, n) == locale
            &&& h[n - k - 1] == ' ' && h[n - k - 2] == ' ' && h[n - k - 3] == '—'
            &&& h[n - k - 4] == ' ' && h[n - k - 5] == ' '
        }),
{
    reveal_strlit("  —  ");
    let front = language_name(lang_code(locale)) + region_suffix(region_code(locale));
    let h = human_name(locale);
    assert(h =~= front + "  —  "@ + locale);
    let n = h.len() as int;
    let k = locale.len() as int;
    assert(h.subrange(n - k, n) =~= locale);
    let f = front.len() as int;
    assert(h[f] == ' ' && h[f + 1] == ' ' && h[f + 2] == '—' && h[f + 3] == ' ' && h[f + 4]
        == ' ');
}

/// Two locales without a dash `—` in them have the same label only if they
/// are the same locale: the label ends with the locale after its last dash.
pub proof fn law_label_identifies_locale(l1: Seq<char>, l2: Seq<char>)
    requires
        !l1.contains('—'),
        !l2.contains('—'),
        human_name(l1) == human_name(l2),
    ensures
        l1 == l2,
{
    lemma_human_name_tail(l1);
    lemma_human_name_tail(l2);
    let h = human_name(l1);
    let n = h.len() as int;
    let k1 = l1.len() as int;
    let k2 = l2.len() as int;
    if k1 < k2 {
        if k2 >= k1 + 3 {
            assert(l2[k2 - k1 - 3] == h[n - k1 - 3]);
        }
    } else if k2 < k1 {
        if k1 >= k2 + 3 {
            assert(l1[k1 - k2 - 3] == h[n - k2 - 3]);
        }
    }
}

/// The language code of `c`, `c` followed by `sep` and `r`, is all of `c`
/// when `c` holds neither `'_'` nor `'.'` and `sep` is one of them.
proof fn lemma_lang_code_field(c: Seq<char>, sep: char, r: Seq<char>)
    requires
        !c.contains('_'),
        !c.contains('.'),
        sep == '_' || sep == '.',
    ensures
        lang_code(c + seq![sep] + r) == c,
{
    let s = c + seq![sep] + r;
    let k = c.len() as int;
    assert forall|j: int| 0 <= j < k implies s[j] != '.' && s[j] != '_' by {
        assert(s[j] == c[j]);
    }
    assert(s[k] == sep);
    lemma_find(s, '.');
    let d = find(s, '.') as int;
    if sep == '.' {
        lemma_find_at(s, '.', k);
    } else {
        if d <= k {
            assert(s[d] == '.');
        }
    }
    let part = s.take(d);
    assert(part == lang_part(s));
    if sep == '_' {
        assert forall|j: int| 0 <= j < k implies part[j] != '_' by {
            assert(part[j] == s[j]);
        }
        assert(part[k] == '_');
        lemma_find_at(part, '_', k);
        assert(part.take(k) =~= c);
    } else {
        assert(part =~= c);
        assert forall|j: int| 0 <= j < k implies part[j] != '_' by {
            assert(part[j] == c[j]);
        }
        lemma_find_at(part, '_', k);
        assert(part.take(k) =~= c);
    }
}

/// The label of a locale starts with the name of its whole language code:
/// for a code `c` without `'_'` or `'.'`, the labels of `c`, `c_<rest>` and
/// `c.<rest>` all begin with the native name of `c`.
pub proof fn law_label_starts_with_language(c: Seq<char>, r: Seq<char>)
    requires
        !c.contains('_'),
        !c.contains('.'),
    ensures
        language_name(c).is_prefix_of(human_name(c)),
        language_name(c).is_prefix_of(human_name(c + "_"@ + r)),
        language_name(c).is_prefix_of(human_name(c + "."@ + r)),
{
    reveal_strlit("_");
    reveal_strlit(".");
    assert("_"@ =~= seq!['_']);
    assert("."@ =~= seq!['.']);
    lemma_lang_code_field(c, '_', r);
    lemma_lang_code_field(c, '.', r);
    lemma_find(c, '.');
    lemma_find(c, '_');
    assert(c.take(c.len() as int) =~= c);
    assert(lang_code(c) == c);
    let n1 = language_name(c);
    assert(human_name(c).subrange(0, n1.len() as int) =~= n1);
    assert(human_name(c + "_"@ + r).subrange(0, n1.len() as int) =~= n1);
    assert(human_name(c + "."@ + r).subrange(0, n1.len() as int) =~= n1);
}

/// The language part and the region of `c_r` and of `c_r.e`, for fields
/// `c` and `r` without `'_'` or `'.'`.
proof fn lemma_lang_region_fields(c: Seq<char>, r: Seq<char>, tail: Seq<char>)
    requires
        !c.contains('_'),
        !c.contains('.'),
        !r.contains('_'),
        !r.contains('.'),
        tail.len() == 0 || tail[0] == '.',
    ensures
        lang_code(c + seq!['_'] + r + tail) == c,
        region_code(c + seq!['_'] + r + tail) == r,
{
    let s = c + seq!['_'] + r + tail;
    let k = c.len() as int;
    let m = k + 1 + r.len();
    assert forall|j: int| 0 <= j < m implies s[j] != '.' by {
        if j < k {
            assert(s[j] == c[j]);
        } else if j > k {
            assert(s[j] == r[j - k - 1]);
        }
    }
    if tail.len() > 0 {
        assert(s[m] == '.');
    }
    lemma_find_at(s, '.', m);
    let part = lang_part(s);
    assert(part =~= c + seq!['_'] + r);
    assert forall|j: int| 0 <= j < k implies part[j] != '_' by {
        assert(part[j] == c[j]);
    }
    lemma_find_at(part, '_', k);
    assert(part.take(k) =~= c);
    assert(part.contains('_')) by {
        assert(part[k] == '_');
    }
    let rest = after(part, '_');
    assert(rest =~= r);
    lemma_find(r, '_');
    assert(r.take(r.len() as int) =~= r);
}

/// The label of `<c>_<r>`, optionally followed by `.<codeset>`, for a
/// language code `c` and a non-empty region code `r` without `'_'` or `'.'`:
/// the language's name, the country's name in brackets, then the locale.
pub proof fn law_label_of_language_and_region(c: Seq<char>, r: Seq<char>, e: Seq<char>)
    requires
        !c.contains('_'),
        !c.contains('.'),
        !r.contains('_'),
        !r.contains('.'),
        r.len() > 0,
    ensures
        human_name(c + "_"@ + r) == language_name(c) + " ("@ + country_label(r) + ")"@ + "  —  "@
            + (c + "_"@ + r),
        human_name(c + "_"@ + r + "."@ + e) == language_name(c) + " ("@ + country_label(r) + ")"@
            + "  —  "@ + (c + "_"@ + r + "."@ + e),
{
    reveal_strlit("_");
    reveal_strlit(".");
    assert("_"@ =~= seq!['_']);
    assert("."@ =~= seq!['.']);
    assert(c + "_"@ + r =~= c + seq!['_'] + r + Seq::<char>::empty());
    lemma_lang_region_fields(c, r, Seq::<char>::empty());
    assert(c + "_"@ + r + "."@ + e =~= c + seq!['_'] + r + (seq!['.'] + e));
    lemma_lang_region_fields(c, r, seq!['.'] + e);
}

/// The human-readable label of `locale` (see `human_name`).
pub fn locale_to_human_name(locale: &str) -> (label: String)
    ensures
        label@ == human_name(locale@),
{
    let v = chars_of(locale);
    let n = v.len();
    let dot = find_between(&v, 0, n, '.');
    assert(v@.subrange(0, n as int) =~= locale@);
    let ghost part = lang_part(locale@);
    assert(part =~= v@.subrange(0, dot as int));
    let us = find_between(&v, 0, dot, '_');
    assert(lang_code(locale@) =~= v@.subrange(0, us as int));
    let mut label = String::from_str(lang_name(locale.substring_char(0, us)));
    proof {
        lemma_find(part, '_');
    }
    if us < dot {
        assert(part.contains('_')) by {
            assert(part[us as int] == '_');
        }
        let end = find_between(&v, us + 1, dot, '_');
        assert(after(part, '_') =~= v@.subrange(us + 1, dot as int));
        assert(region_code(locale@) =~= v@.subrange(us + 1, end as int));
        if end > us + 1 {
            label.append(" (");
            label.append(country_name(locale.substring_char(us + 1, end)));
            label.append(")");
        }
    } else {
        assert(!part.contains('_'));
    }
    label.append("  —  ");
    label.append(locale);
    label
}

} // verus!

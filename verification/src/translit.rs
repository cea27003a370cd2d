//! Latin spelling of Cyrillic text, so that a search typed in one script
//! finds labels written in the other.
use vstd::prelude::*;
use vstd::string::StrSliceExecFns;
use vstd::string::StringExecFns;

use crate::text::chars_of;

verus! {

broadcast use vstd::string::group_string_axioms;

/// The Latin spelling of a lower-case Cyrillic letter: the Serbian
/// alphabet as Serbian Latin spells it, and the further letters of Russian
/// and Ukrainian (й j, ы y, э e, ю ju, я ja, ё jo, щ šč, є je, і i, ї ji,
/// ґ g; the hard and soft signs ъ and ь are dropped). Any other character
/// stands for itself.
pub open spec fn latin_letter(c: char) -> Seq<char> {
    if c == 'а' {
        "a"@
    } else if c == 'б' {
        "b"@
    } else if c == 'в' {
        "v"@
    } else if c == 'г' {
        "g"@
    } else if c == 'д' {
        "d"@
    } else if c == 'ђ' {
        "đ"@
    } else if c == 'е' {
        "e"@
    } else if c == 'ж' {
        "ž"@
    } else if c == 'з' {
        "z"@
    } else if c == 'и' {
        "i"@
    } else if c == 'ј' {
        "j"@
    } else if c == 'к' {
        "k"@
    } else if c == 'л' {
        "l"@
    } else if c == 'љ' {
        "lj"@
    } else if c == 'м' {
        "m"@
    } else if c == 'н' {
        "n"@
    } else if c == 'њ' {
        "nj"@
    } else if c == 'о' {
        "o"@
    } else if c == 'п' {
        "p"@
    } else if c == 'р' {
        "r"@
    } else if c == 'с' {
        "s"@
    } else if c == 'т' {
        "t"@
    } else if c == 'ћ' {
        "ć"@
    } else if c == 'у' {
        "u"@
    } else if c == 'ф' {
        "f"@
    } else if c == 'х' {
        "h"@
    } else if c == 'ц' {
        "c"@
    } else if c == 'ч' {
        "č"@
    } else if c == 'џ' {
        "dž"@
    } else if c == 'ш' {
        "š"@
    } else if c == 'й' {
        "j"@
    } else if c == 'ы' {
        "y"@
    } else if c == 'э' {
        "e"@
    } else if c == 'ю' {
        "ju"@
    } else if c == 'я' {
        "ja"@
    } else if c == 'ё' {
        "jo"@
    } else if c == 'щ' {
        "šč"@
    } else if c == 'ь' {
        ""@
    } else if c == 'ъ' {
        ""@
    } else if c == 'є' {
        "je"@
    } else if c == 'і' {
        "i"@
    } else if c == 'ї' {
        "ji"@
    } else if c == 'ґ' {
        "g"@
    } else {
        seq![c]
    }
}

/// `s` with every lower-case Cyrillic letter spelt in Latin.
pub open spec fn to_latin(s: Seq<char>) -> Seq<char>
    decreases s.len(),
{
    if s.len() == 0 {
        seq![]
    } else {
        to_latin(s.drop_last()) + latin_letter(s.last())
    }
}

/// The Latin spelling of each Cyrillic letter, letter by letter: the
/// standard Serbian Latin letters, and for Russian and Ukrainian the
/// letters listed with `latin_letter`.
pub proof fn law_latin_letters()
    ensures
        latin_letter('а') == "a"@,
        latin_letter('б') == "b"@,
        latin_letter('в') == "v"@,
        latin_letter('г') == "g"@,
        latin_letter('д') == "d"@,
        latin_letter('ђ') == "đ"@,
        latin_letter('е') == "e"@,
        latin_letter('ж') == "ž"@,
        latin_letter('з') == "z"@,
        latin_letter('и') == "i"@,
        latin_letter('ј') == "j"@,
        latin_letter('к') == "k"@,
        latin_letter('л') == "l"@,
        latin_letter('љ') == "lj"@,
        latin_letter('м') == "m"@,
        latin_letter('н') == "n"@,
        latin_letter('њ') == "nj"@,
        latin_letter('о') == "o"@,
        latin_letter('п') == "p"@,
        latin_letter('р') == "r"@,
        latin_letter('с') == "s"@,
        latin_letter('т') == "t"@,
        latin_letter('ћ') == "ć"@,
        latin_letter('у') == "u"@,
        latin_letter('ф') == "f"@,
        latin_letter('х') == "h"@,
        latin_letter('ц') == "c"@,
        latin_letter('ч') == "č"@,
        latin_letter('џ') == "dž"@,
        latin_letter('ш') == "š"@,
        latin_letter('й') == "j"@,
        latin_letter('ы') == "y"@,
        latin_letter('э') == "e"@,
        latin_letter('ю') == "ju"@,
        latin_letter('я') == "ja"@,
        latin_letter('ё') == "jo"@,
        latin_letter('щ') == "šč"@,
        latin_letter('ь') == ""@,
        latin_letter('ъ') == ""@,
        latin_letter('є') == "je"@,
        latin_letter('і') == "i"@,
        latin_letter('ї') == "ji"@,
        latin_letter('ґ') == "g"@,
{
}

/// Whether `c` is one of the lower-case Cyrillic letters that have a
/// Latin spelling.
pub open spec fn is_spelt_letter(c: char) -> bool {
    c == 'а' || c == 'б' || c == 'в' || c == 'г' || c == 'д' || c == 'ђ' || c == 'е' || c == 'ж' || c == 'з' || c == 'и' || c == 'ј' || c == 'к' || c == 'л' || c == 'љ' || c == 'м' || c == 'н' || c == 'њ' || c == 'о' || c == 'п' || c == 'р' || c == 'с' || c == 'т' || c == 'ћ' || c == 'у' || c == 'ф' || c == 'х' || c == 'ц' || c == 'ч' || c == 'џ' || c == 'ш' || c == 'й' || c == 'ы' || c == 'э' || c == 'ю' || c == 'я' || c == 'ё' || c == 'щ' || c == 'ь' || c == 'ъ' || c == 'є' || c == 'і' || c == 'ї' || c == 'ґ'
}

/// Every other character stands for itself.
pub proof fn law_other_characters_kept(c: char)
    requires
        !is_spelt_letter(c),
    ensures
        latin_letter(c) == seq![c],
{
}

/// Spelling in Latin distributes over concatenation.
pub proof fn lemma_to_latin_concat(a: Seq<char>, b: Seq<char>)
    ensures
        to_latin(a + b) == to_latin(a) + to_latin(b),
    decreases b.len(),
{
    if b.len() == 0 {
        assert(a + b =~= a);
        assert(to_latin(a) + Seq::<char>::empty() =~= to_latin(a));
    } else {
        assert((a + b).drop_last() =~= a + b.drop_last());
        assert((a + b).last() == b.last());
        lemma_to_latin_concat(a, b.drop_last());
        assert(to_latin(a) + to_latin(b.drop_last()) + latin_letter(b.last()) =~= to_latin(a) + (
        to_latin(b.drop_last()) + latin_letter(b.last())));
    }
}

/// Text whose characters all stand for themselves is its own Latin spelling.
proof fn lemma_to_latin_fixed(s: Seq<char>)
    requires
        forall|i: int| 0 <= i < s.len() ==> latin_letter(#[trigger] s[i]) == seq![s[i]],
    ensures
        to_latin(s) == s,
    decreases s.len(),
{
    if s.len() > 0 {
        assert(latin_letter(s[s.len() - 1]) == seq![s.last()]);
        lemma_to_latin_fixed(s.drop_last());
        assert(s.drop_last().push(s.last()) =~= s);
    }
}

/// The Latin spelling of a letter is spelt in Latin already.
proof fn lemma_latin_letter_fixed(c: char)
    ensures
        to_latin(latin_letter(c)) == latin_letter(c),
{
    if c == 'а' {
        reveal_strlit("a");
    } else if c == 'б' {
        reveal_strlit("b");
    } else if c == 'в' {
        reveal_strlit("v");
    } else if c == 'г' {
        reveal_strlit("g");
    } else if c == 'д' {
        reveal_strlit("d");
    } else if c == 'ђ' {
        reveal_strlit("đ");
    } else if c == 'е' {
        reveal_strlit("e");
    } else if c == 'ж' {
        reveal_strlit("ž");
    } else if c == 'з' {
        reveal_strlit("z");
    } else if c == 'и' {
        reveal_strlit("i");
    } else if c == 'ј' {
        reveal_strlit("j");
    } else if c == 'к' {
        reveal_strlit("k");
    } else if c == 'л' {
        reveal_strlit("l");
    } else if c == 'љ' {
        reveal_strlit("lj");
    } else if c == 'м' {
        reveal_strlit("m");
    } else if c == 'н' {
        reveal_strlit("n");
    } else if c == 'њ' {
        reveal_strlit("nj");
    } else if c == 'о' {
        reveal_strlit("o");
    } else if c == 'п' {
        reveal_strlit("p");
    } else if c == 'р' {
        reveal_strlit("r");
    } else if c == 'с' {
        reveal_strlit("s");
    } else if c == 'т' {
        reveal_strlit("t");
    } else if c == 'ћ' {
        reveal_strlit("ć");
    } else if c == 'у' {
        reveal_strlit("u");
    } else if c == 'ф' {
        reveal_strlit("f");
    } else if c == 'х' {
        reveal_strlit("h");
    } else if c == 'ц' {
        reveal_strlit("c");
    } else if c == 'ч' {
        reveal_strlit("č");
    } else if c == 'џ' {
        reveal_strlit("dž");
    } else if c == 'ш' {
        reveal_strlit("š");
    } else if c == 'й' {
        reveal_strlit("j");
    } else if c == 'ы' {
        reveal_strlit("y");
    } else if c == 'э' {
        reveal_strlit("e");
    } else if c == 'ю' {
        reveal_strlit("ju");
    } else if c == 'я' {
        reveal_strlit("ja");
    } else if c == 'ё' {
        reveal_strlit("jo");
    } else if c == 'щ' {
        reveal_strlit("šč");
    } else if c == 'ь' {
        reveal_strlit("");
    } else if c == 'ъ' {
        reveal_strlit("");
    } else if c == 'є' {
        reveal_strlit("je");
    } else if c == 'і' {
        reveal_strlit("i");
    } else if c == 'ї' {
        reveal_strlit("ji");
    } else if c == 'ґ' {
        reveal_strlit("g");
    } else {
        assert(latin_letter(c) == seq![c]);
    }
    let l = latin_letter(c);
    assert forall|i: int| 0 <= i < l.len() implies latin_letter(#[trigger] l[i]) == seq![l[i]] by {}
    lemma_to_latin_fixed(l);
}

/// Spelling in Latin twice gives what spelling once gives.
pub proof fn law_to_latin_idempotent(s: Seq<char>)
    ensures
        to_latin(to_latin(s)) == to_latin(s),
    decreases s.len(),
{
    if s.len() > 0 {
        law_to_latin_idempotent(s.drop_last());
        lemma_to_latin_concat(to_latin(s.drop_last()), latin_letter(s.last()));
        lemma_latin_letter_fixed(s.last());
    } else {
        assert(to_latin(to_latin(s)) == to_latin(Seq::<char>::empty()));
    }
}

/// The Latin spelling of `c` when `c` is a lower-case Cyrillic letter.
fn cyrillic_to_latin(c: char) -> (latin: Option<&'static str>)
    ensures
        match latin {
            Some(l) => l@ == latin_letter(c),
            None => latin_letter(c) == seq![c],
        },
{
    if c == 'а' {
        Some("a")
    } else if c == 'б' {
        Some("b")
    } else if c == 'в' {
        Some("v")
    } else if c == 'г' {
        Some("g")
    } else if c == 'д' {
        Some("d")
    } else if c == 'ђ' {
        Some("đ")
    } else if c == 'е' {
        Some("e")
    } else if c == 'ж' {
        Some("ž")
    } else if c == 'з' {
        Some("z")
    } else if c == 'и' {
        Some("i")
    } else if c == 'ј' {
        Some("j")
    } else if c == 'к' {
        Some("k")
    } else if c == 'л' {
        Some("l")
    } else if c == 'љ' {
        Some("lj")
    } else if c == 'м' {
        Some("m")
    } else if c == 'н' {
        Some("n")
    } else if c == 'њ' {
        Some("nj")
    } else if c == 'о' {
        Some("o")
    } else if c == 'п' {
        Some("p")
    } else if c == 'р' {
        Some("r")
    } else if c == 'с' {
        Some("s")
    } else if c == 'т' {
        Some("t")
    } else if c == 'ћ' {
        Some("ć")
    } else if c == 'у' {
        Some("u")
    } else if c == 'ф' {
        Some("f")
    } else if c == 'х' {
        Some("h")
    } else if c == 'ц' {
        Some("c")
    } else if c == 'ч' {
        Some("č")
    } else if c == 'џ' {
        Some("dž")
    } else if c == 'ш' {
        Some("š")
    } else if c == 'й' {
        Some("j")
    } else if c == 'ы' {
        Some("y")
    } else if c == 'э' {
        Some("e")
    } else if c == 'ю' {
        Some("ju")
    } else if c == 'я' {
        Some("ja")
    } else if c == 'ё' {
        Some("jo")
    } else if c == 'щ' {
        Some("šč")
    } else if c == 'ь' {
        Some("")
    } else if c == 'ъ' {
        Some("")
    } else if c == 'є' {
        Some("je")
    } else if c == 'і' {
        Some("i")
    } else if c == 'ї' {
        Some("ji")
    } else if c == 'ґ' {
        Some("g")
    } else {
        None
    }
}

/// `s` spelt in Latin (see `to_latin`).
pub fn transliterate(s: &str) -> (latin: String)
    ensures
        latin@ == to_latin(s@),
{
    let v = chars_of(s);
    let n = v.len();
    let mut out = String::new();
    let mut i: usize = 0;
    assert(s@.take(0) =~= Seq::<char>::empty());
    while i < n
        invariant
            i <= n,
            n == s@.len(),
            v@ == s@,
            out@ == to_latin(s@.take(i as int)),
        decreases n - i,
    {
        assert(s@.take(i + 1).drop_last() =~= s@.take(i as int));
        assert(s@.take(i + 1).last() == v@[i as int]);
        match cyrillic_to_latin(v[i]) {
            Some(l) => out.append(l),
            None => {
                let one = s.substring_char(i, i + 1);
                assert(one@ =~= seq![v@[i as int]]);
                out.append(one);
            },
        }
        i = i + 1;
    }
    assert(s@.take(n as int) =~= s@);
    out
}

} // verus!

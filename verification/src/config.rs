//! The `LANG=` assignments of `locale.conf`-style files and the
//! `export LANG=` line of a shell profile: reading the current locale back
//! out of one, writing a new one, and rewriting an existing file so that it
//! assigns a new locale.
use vstd::prelude::*;
use vstd::string::StringExecFns;

use crate::text::{
    find, is_space, lemma_find, lemma_find_at, lines_of, split_lines, strip_cr, strip_prefix_str,
    trim, trim_start, trim_str,
};

verus! {

broadcast use vstd::string::group_string_axioms;

/// The prefix of a `locale.conf` line that assigns the locale.
pub open spec fn lang_key() -> Seq<char> {
    "LANG="@
}

/// The prefix of a shell-profile line that exports the locale.
pub open spec fn export_key() -> Seq<char> {
    "export LANG="@
}

/// The trimmed rest of the first line of `lines` that starts with `key`.
pub open spec fn first_value(lines: Seq<Seq<char>>, key: Seq<char>) -> Option<Seq<char>>
    decreases lines.len(),
{
    if lines.len() == 0 {
        None
    } else if key.is_prefix_of(lines[0]) {
        Some(trim(lines[0].skip(key.len() as int)))
    } else {
        first_value(lines.drop_first(), key)
    }
}

/// The locale that a `locale.conf` text assigns: the trimmed value of its
/// first line that starts with `LANG=`, if any.
pub open spec fn conf_locale(content: Seq<char>) -> Option<Seq<char>> {
    first_value(lines_of(content), lang_key())
}

/// The locale that a shell profile exports: the trimmed value of its first
/// line that starts with `export LANG=`, if any.
pub open spec fn exported_locale(content: Seq<char>) -> Option<Seq<char>> {
    first_value(lines_of(content), export_key())
}

/// The locale used when neither the environment nor `locale.conf` names one.
pub open spec fn default_locale() -> Seq<char> {
    "en_US.UTF-8"@
}

/// The current locale: `LANG` from the environment when it is set, else the
/// one `locale.conf` assigns when the file could be read and assigns one,
/// else the default.
pub open spec fn effective_locale(env_lang: Option<Seq<char>>, conf: Option<Seq<char>>) -> Seq<
    char,
> {
    match env_lang {
        Some(lang) => lang,
        None => match conf {
            Some(content) => match conf_locale(content) {
                Some(lang) => lang,
                None => default_locale(),
            },
            None => default_locale(),
        },
    }
}

/// `LANG=<locale>`, the setting handed to the user's service manager.
pub open spec fn lang_setting_text(locale: Seq<char>) -> Seq<char> {
    lang_key() + locale
}

/// `<key><locale>` and a newline.
pub open spec fn assignment_line(key: Seq<char>, locale: Seq<char>) -> Seq<char> {
    key + locale + "\n"@
}

/// `LANG=<locale>` and a newline: the line written to `locale.conf`.
pub open spec fn lang_line_text(locale: Seq<char>) -> Seq<char> {
    assignment_line(lang_key(), locale)
}

/// The lines of `lines` that do not start with `key`, each followed by a
/// newline.
pub open spec fn kept_text(lines: Seq<Seq<char>>, key: Seq<char>) -> Seq<char>
    decreases lines.len(),
{
    if lines.len() == 0 {
        seq![]
    } else if key.is_prefix_of(lines.last()) {
        kept_text(lines.drop_last(), key)
    } else {
        kept_text(lines.drop_last(), key) + lines.last() + "\n"@
    }
}

/// The new text of a file that held `existing` (or did not exist): its
/// lines that do not start with `key`, then the line `<key><locale>`.
pub open spec fn rewritten(existing: Option<Seq<char>>, key: Seq<char>, locale: Seq<char>) -> Seq<
    char,
> {
    match existing {
        Some(content) => kept_text(lines_of(content), key) + assignment_line(key, locale),
        None => assignment_line(key, locale),
    }
}

/// The new text of the session environment file for `locale`.
pub open spec fn env_file_text(existing: Option<Seq<char>>, locale: Seq<char>) -> Seq<char> {
    rewritten(existing, lang_key(), locale)
}

/// The new text of the shell profile for `locale`.
pub open spec fn xprofile_text(existing: Option<Seq<char>>, locale: Seq<char>) -> Seq<char> {
    rewritten(existing, export_key(), locale)
}

/// The trimmed rest of the first line of `content` that starts with `key`
/// (see `first_value`).
pub fn first_assigned_value(content: &str, key: &str) -> (value: Option<String>)
    ensures
        value.deep_view() == first_value(lines_of(content@), key@),
{
    let lines = split_lines(content);
    let n = lines.len();
    let mut i: usize = 0;
    assert(lines.deep_view().skip(0) =~= lines.deep_view());
    while i < n
        invariant
            i <= n,
            n == lines@.len(),
            lines.deep_view() == lines_of(content@),
            first_value(lines_of(content@), key@) == first_value(
                lines.deep_view().skip(i as int),
                key@,
            ),
        decreases n - i,
    {
        let ghost rest = lines.deep_view().skip(i as int);
        assert(rest[0] == lines@[i as int]@);
        match strip_prefix_str(lines[i].as_str(), key) {
            Some(value) => {
                let found = String::from_str(trim_str(value));
                return Some(found);
            },
            None => {
                assert(rest.drop_first() =~= lines.deep_view().skip(i + 1));
            },
        }
        i = i + 1;
    }
    None
}

/// The text of a file that held `existing` with its lines that start with
/// `key` replaced by one line `<key><locale>` at the end (see `rewritten`).
pub fn rewrite_assignment(existing: Option<&str>, key: &str, locale: &str) -> (text: String)
    ensures
        text@ == rewritten(existing.deep_view(), key@, locale@),
{
    let mut text = String::new();
    match existing {
        Some(content) => {
            let lines = split_lines(content);
            let n = lines.len();
            let mut i: usize = 0;
            while i < n
                invariant
                    i <= n,
                    n == lines@.len(),
                    lines.deep_view() == lines_of(content@),
                    text@ == kept_text(lines.deep_view().take(i as int), key@),
                decreases n - i,
            {
                let ghost seen = lines.deep_view().take(i + 1);
                assert(seen.drop_last() =~= lines.deep_view().take(i as int));
                assert(seen.last() == lines@[i as int]@);
                if strip_prefix_str(lines[i].as_str(), key).is_none() {
                    text.append(lines[i].as_str());
                    text.append("\n");
                }
                i = i + 1;
            }
            assert(lines.deep_view().take(n as int) =~= lines.deep_view());
        },
        None => {},
    }
    text.append(key);
    text.append(locale);
    text.append("\n");
    text
}

/// The locale that `content` assigns (see `conf_locale`).
pub fn locale_from_conf(content: &str) -> (lang: Option<String>)
    ensures
        lang.deep_view() == conf_locale(content@),
{
    first_assigned_value(content, "LANG=")
}

/// The current locale (see `effective_locale`).
pub fn current_locale(env_lang: Option<String>, conf: Option<String>) -> (lang: String)
    ensures
        lang@ == effective_locale(env_lang.deep_view(), conf.deep_view()),
{
    match env_lang {
        Some(lang) => lang,
        None => {
            let found = match conf {
                Some(content) => locale_from_conf(content.as_str()),
                None => None,
            };
            match found {
                Some(lang) => lang,
                None => String::from_str("en_US.UTF-8"),
            }
        },
    }
}

/// `LANG=<locale>` (see `lang_setting_text`).
pub fn lang_setting(locale: &str) -> (setting: String)
    ensures
        setting@ == lang_setting_text(locale@),
{
    let mut setting = String::from_str("LANG=");
    setting.append(locale);
    setting
}

/// The line that assigns `locale` (see `lang_line_text`).
pub fn lang_line(locale: &str) -> (line: String)
    ensures
        line@ == lang_line_text(locale@),
{
    rewrite_assignment(None, "LANG=", locale)
}

/// The new text of the session environment file (see `env_file_text`).
pub fn merge_env_content(existing: Option<&str>, locale: &str) -> (text: String)
    ensures
        text@ == env_file_text(existing.deep_view(), locale@),
{
    rewrite_assignment(existing, "LANG=", locale)
}

/// The new text of the shell profile (see `xprofile_text`).
pub fn merge_xprofile(existing: Option<&str>, locale: &str) -> (text: String)
    ensures
        text@ == xprofile_text(existing.deep_view(), locale@),
{
    rewrite_assignment(existing, "export LANG=", locale)
}

// ---------------------------------------------------------------------------
// Reading back what was written
// ---------------------------------------------------------------------------

/// A line with no newline, then a newline, then `rest`: the line (without a
/// trailing carriage return) comes first among the lines, then those of `rest`.
proof fn lemma_lines_of_line_then(a: Seq<char>, rest: Seq<char>)
    requires
        !a.contains('\n'),
    ensures
        lines_of(a + "\n"@ + rest) == seq![strip_cr(a)] + lines_of(rest),
{
    reveal_strlit("\n");
    let s = a + "\n"@ + rest;
    assert forall|j: int| 0 <= j < a.len() implies s[j] != '\n' by {
        assert(s[j] == a[j]);
    }
    assert(s[a.len() as int] == '\n');
    lemma_find_at(s, '\n', a.len() as int);
    assert(s.take(a.len() as int) =~= a);
    assert(s.skip(a.len() + 1int) =~= rest);
}

/// No line of a text holds a newline.
proof fn lemma_lines_have_no_newline(s: Seq<char>)
    ensures
        forall|i: int| 0 <= i < lines_of(s).len() ==> !(#[trigger] lines_of(s)[i]).contains('\n'),
    decreases s.len(),
{
    if s.len() > 0 {
        lemma_find(s, '\n');
        let k = find(s, '\n');
        if k < s.len() {
            lemma_lines_have_no_newline(s.skip(k + 1int));
            let first = strip_cr(s.take(k as int));
            assert(!first.contains('\n')) by {
                if first.contains('\n') {
                    let j = choose|j: int| 0 <= j < first.len() && first[j] == '\n';
                    assert(s[j] == '\n');
                }
            }
            assert forall|i: int| 0 <= i < lines_of(s).len() implies !(
            #[trigger] lines_of(s)[i]).contains('\n') by {
                if i > 0 {
                    assert(lines_of(s)[i] == lines_of(s.skip(k + 1int))[i - 1]);
                }
            }
        } else {
            assert(lines_of(s)[0] == s);
        }
    }
}

/// Dropping a trailing carriage return never makes a line start with `key`.
proof fn lemma_strip_cr_key_line(a: Seq<char>, key: Seq<char>)
    ensures
        key.is_prefix_of(strip_cr(a)) ==> key.is_prefix_of(a),
{
    if a.len() > 0 && a.last() == '\r' && key.is_prefix_of(strip_cr(a)) {
        let b = a.drop_last();
        assert(b.subrange(0, key.len() as int) =~= a.subrange(0, key.len() as int));
    }
}

/// The first value for `key` among `seq![x] + ys`, where `x` does not start
/// with `key`, is the first one among `ys`.
proof fn lemma_first_value_skip(x: Seq<char>, ys: Seq<Seq<char>>, key: Seq<char>)
    requires
        !key.is_prefix_of(x),
    ensures
        first_value(seq![x] + ys, key) == first_value(ys, key),
{
    assert((seq![x] + ys)[0] == x);
    assert((seq![x] + ys).drop_first() =~= ys);
}

/// The lines that `kept_text` keeps do not start with `key`, so the first
/// value for `key` after them is the first one in what follows.
proof fn lemma_kept_text_read(lines: Seq<Seq<char>>, key: Seq<char>, rest: Seq<char>)
    requires
        forall|i: int| 0 <= i < lines.len() ==> !(#[trigger] lines[i]).contains('\n'),
    ensures
        first_value(lines_of(kept_text(lines, key) + rest), key) == first_value(
            lines_of(rest),
            key,
        ),
    decreases lines.len(),
{
    if lines.len() > 0 {
        let init = lines.drop_last();
        let last = lines.last();
        assert(!last.contains('\n')) by {
            assert(lines[lines.len() - 1] == last);
        }
        assert forall|i: int| 0 <= i < init.len() implies !(#[trigger] init[i]).contains('\n') by {
            assert(init[i] == lines[i]);
        }
        if key.is_prefix_of(last) {
            lemma_kept_text_read(init, key, rest);
        } else {
            let rest2 = last + "\n"@ + rest;
            assert(kept_text(lines, key) + rest =~= kept_text(init, key) + rest2);
            lemma_kept_text_read(init, key, rest2);
            lemma_lines_of_line_then(last, rest);
            lemma_strip_cr_key_line(last, key);
            lemma_first_value_skip(strip_cr(last), lines_of(rest), key);
        }
    }
}

/// Leading whitespace removal commutes with appending whitespace, unless
/// nothing but whitespace is left.
proof fn lemma_trim_start_push_space(s: Seq<char>, w: char)
    requires
        is_space(w),
    ensures
        trim_start(s.push(w)) == if trim_start(s).len() == 0 {
            seq![]
        } else {
            trim_start(s).push(w)
        },
    decreases s.len(),
{
    if s.len() == 0 {
        assert(s.push(w)[0] == w);
        assert(s.push(w).drop_first() =~= Seq::<char>::empty());
        assert(trim_start(Seq::<char>::empty()) == Seq::<char>::empty());
    } else {
        assert(s.push(w)[0] == s[0]);
        if is_space(s[0]) {
            assert(s.push(w).drop_first() =~= s.drop_first().push(w));
            lemma_trim_start_push_space(s.drop_first(), w);
        }
    }
}

/// Appending whitespace does not change what trimming leaves.
proof fn lemma_trim_push_space(s: Seq<char>, w: char)
    requires
        is_space(w),
    ensures
        trim(s.push(w)) == trim(s),
{
    lemma_trim_start_push_space(s, w);
    let t = trim_start(s);
    if t.len() > 0 {
        assert(t.push(w).drop_last() =~= t);
    }
}

/// The value read back from the single line `<key><locale>`.
proof fn lemma_assignment_read(key: Seq<char>, locale: Seq<char>)
    requires
        !key.contains('\n'),
        key.len() > 0,
        key.last() != '\r',
        !locale.contains('\n'),
    ensures
        first_value(lines_of(assignment_line(key, locale)), key) == Some(trim(locale)),
{
    let a = key + locale;
    let k = key.len() as int;
    assert(!a.contains('\n')) by {
        if a.contains('\n') {
            let j = choose|j: int| 0 <= j < a.len() && a[j] == '\n';
            if j < k {
                assert(key[j] == '\n');
            } else {
                assert(locale[j - k] == '\n');
            }
        }
    }
    assert(assignment_line(key, locale) =~= a + "\n"@ + Seq::<char>::empty());
    lemma_lines_of_line_then(a, Seq::<char>::empty());
    let first = strip_cr(a);
    assert(lines_of(Seq::<char>::empty()) =~= Seq::<Seq<char>>::empty());
    assert(seq![first] + Seq::<Seq<char>>::empty() =~= seq![first]);
    if locale.len() > 0 && locale.last() == '\r' {
        assert(first =~= key + locale.drop_last());
        assert(first.subrange(0, k) =~= key);
        assert(first.skip(k) =~= locale.drop_last());
        assert(locale.drop_last().push('\r') =~= locale);
        lemma_trim_push_space(locale.drop_last(), '\r');
    } else {
        if locale.len() == 0 {
            assert(a.last() == key.last());
        } else {
            assert(a.last() == locale.last());
        }
        assert(first =~= a);
        assert(a.subrange(0, k) =~= key);
        assert(a.skip(k) =~= locale);
    }
    assert(seq![first][0] == first);
}

/// What a file rewritten for `key` and `locale` gives back for `key`.
proof fn lemma_rewritten_read(existing: Option<Seq<char>>, key: Seq<char>, locale: Seq<char>)
    requires
        !key.contains('\n'),
        key.len() > 0,
        key.last() != '\r',
        !locale.contains('\n'),
    ensures
        first_value(lines_of(rewritten(existing, key, locale)), key) == Some(trim(locale)),
{
    lemma_assignment_read(key, locale);
    match existing {
        Some(content) => {
            lemma_lines_have_no_newline(content);
            lemma_kept_text_read(lines_of(content), key, assignment_line(key, locale));
        },
        None => {},
    }
}

/// Facts about the two keys that the proofs need.
proof fn lemma_keys()
    ensures
        !lang_key().contains('\n'),
        lang_key().len() > 0,
        lang_key().last() != '\r',
        !export_key().contains('\n'),
        export_key().len() > 0,
        export_key().last() != '\r',
{
    reveal_strlit("LANG=");
    reveal_strlit("export LANG=");
    assert(lang_key().last() == '=');
    assert(export_key().last() == '=');
}

/// Writing `LANG=<locale>` to `locale.conf` and reading the current locale
/// back while `LANG` is not set in the environment gives `locale` without
/// surrounding whitespace, for any locale name that holds no newline.
pub proof fn law_locale_conf_roundtrip(locale: Seq<char>)
    requires
        !locale.contains('\n'),
    ensures
        conf_locale(lang_line_text(locale)) == Some(trim(locale)),
        effective_locale(None, Some(lang_line_text(locale))) == trim(locale),
{
    lemma_keys();
    lemma_assignment_read(lang_key(), locale);
}

/// After the session environment file is rewritten for `locale`, whatever
/// it held before, the locale it assigns is `locale` without surrounding
/// whitespace, for any locale name that holds no newline.
pub proof fn law_env_file_assigns_locale(existing: Option<Seq<char>>, locale: Seq<char>)
    requires
        !locale.contains('\n'),
    ensures
        conf_locale(env_file_text(existing, locale)) == Some(trim(locale)),
{
    lemma_keys();
    lemma_rewritten_read(existing, lang_key(), locale);
}

/// After the shell profile is rewritten for `locale`, whatever it held
/// before, the locale it exports is `locale` without surrounding
/// whitespace, for any locale name that holds no newline.
pub proof fn law_xprofile_exports_locale(existing: Option<Seq<char>>, locale: Seq<char>)
    requires
        !locale.contains('\n'),
    ensures
        exported_locale(xprofile_text(existing, locale)) == Some(trim(locale)),
{
    lemma_keys();
    lemma_rewritten_read(existing, export_key(), locale);
}

/// `kept_text` of a line followed by more lines.
proof fn lemma_kept_text_cons(x: Seq<char>, ys: Seq<Seq<char>>, key: Seq<char>)
    ensures
        kept_text(seq![x] + ys, key) == (if key.is_prefix_of(x) {
            Seq::<char>::empty()
        } else {
            x + "\n"@
        }) + kept_text(ys, key),
    decreases ys.len(),
{
    if ys.len() == 0 {
        assert(seq![x] + ys =~= seq![x]);
        assert(seq![x].drop_last() =~= Seq::<Seq<char>>::empty());
        assert(seq![x].last() == x);
        assert(kept_text(Seq::<Seq<char>>::empty(), key) == Seq::<char>::empty());
        if key.is_prefix_of(x) {
            assert(Seq::<char>::empty() + Seq::<char>::empty() =~= Seq::<char>::empty());
        } else {
            assert(Seq::<char>::empty() + x + "\n"@ =~= x + "\n"@ + Seq::<char>::empty());
        }
    } else {
        let whole = seq![x] + ys;
        assert(whole.drop_last() =~= seq![x] + ys.drop_last());
        assert(whole.last() == ys.last());
        lemma_kept_text_cons(x, ys.drop_last(), key);
        let head = if key.is_prefix_of(x) {
            Seq::<char>::empty()
        } else {
            x + "\n"@
        };
        if !key.is_prefix_of(ys.last()) {
            assert(head + kept_text(ys.drop_last(), key) + ys.last() + "\n"@ =~= head + (
            kept_text(ys.drop_last(), key) + ys.last() + "\n"@));
        }
    }
}

/// Reading back the lines that `kept_text` keeps gives them again, when
/// none of them ends in a carriage return.
proof fn lemma_kept_text_relines(lines: Seq<Seq<char>>, key: Seq<char>, rest: Seq<char>)
    requires
        forall|i: int| 0 <= i < lines.len() ==> !(#[trigger] lines[i]).contains('\n'),
        forall|i: int|
            0 <= i < lines.len() && !key.is_prefix_of(#[trigger] lines[i]) ==> strip_cr(lines[i])
                == lines[i],
    ensures
        kept_text(lines_of(kept_text(lines, key) + rest), key) == kept_text(lines, key)
            + kept_text(lines_of(rest), key),
    decreases lines.len(),
{
    if lines.len() == 0 {
        assert(Seq::<char>::empty() + rest =~= rest);
        assert(Seq::<char>::empty() + kept_text(lines_of(rest), key) =~= kept_text(
            lines_of(rest),
            key,
        ));
    } else {
        let init = lines.drop_last();
        let last = lines.last();
        assert(lines[lines.len() - 1] == last);
        assert forall|i: int| 0 <= i < init.len() implies !(#[trigger] init[i]).contains('\n') by {
            assert(init[i] == lines[i]);
        }
        assert forall|i: int|
            0 <= i < init.len() && !key.is_prefix_of(#[trigger] init[i]) implies strip_cr(init[i])
            == init[i] by {
            assert(init[i] == lines[i]);
        }
        if key.is_prefix_of(last) {
            lemma_kept_text_relines(init, key, rest);
        } else {
            let rest2 = last + "\n"@ + rest;
            assert(kept_text(lines, key) + rest =~= kept_text(init, key) + rest2);
            lemma_kept_text_relines(init, key, rest2);
            lemma_lines_of_line_then(last, rest);
            lemma_kept_text_cons(last, lines_of(rest), key);
            assert(kept_text(init, key) + (last + "\n"@ + kept_text(lines_of(rest), key))
                =~= kept_text(lines, key) + kept_text(lines_of(rest), key));
        }
    }
}

/// Whether no line of `existing` that does not start with `key` ends in a
/// carriage return.
pub open spec fn no_kept_cr(existing: Option<Seq<char>>, key: Seq<char>) -> bool {
    match existing {
        Some(content) => forall|i: int|
            0 <= i < lines_of(content).len() && !key.is_prefix_of(#[trigger] lines_of(content)[i])
                ==> strip_cr(lines_of(content)[i]) == lines_of(content)[i],
        None => true,
    }
}

/// Rewriting a file a second time for the same key and locale leaves it as
/// the first rewrite left it.
proof fn lemma_rewritten_idempotent(existing: Option<Seq<char>>, key: Seq<char>, locale: Seq<char>)
    requires
        !key.contains('\n'),
        key.len() > 0,
        key.last() != '\r',
        !locale.contains('\n'),
        no_kept_cr(existing, key),
    ensures
        rewritten(Some(rewritten(existing, key, locale)), key, locale) == rewritten(
            existing,
            key,
            locale,
        ),
{
    let a = assignment_line(key, locale);
    lemma_assignment_read(key, locale);
    // the single line of `a` starts with `key`, so nothing of it is kept
    let la = lines_of(a);
    assert(kept_text(la, key) == Seq::<char>::empty()) by {
        assert(la.len() == 1) by {
            let k = key.len() as int;
            let body = key + locale;
            assert(!body.contains('\n')) by {
                if body.contains('\n') {
                    let j = choose|j: int| 0 <= j < body.len() && body[j] == '\n';
                    if j < k {
                        assert(key[j] == '\n');
                    } else {
                        assert(locale[j - k] == '\n');
                    }
                }
            }
            assert(a =~= body + "\n"@ + Seq::<char>::empty());
            lemma_lines_of_line_then(body, Seq::<char>::empty());
            assert(lines_of(Seq::<char>::empty()) =~= Seq::<Seq<char>>::empty());
        }
        assert(first_value(la, key) is Some);
        assert(la.drop_first() =~= Seq::<Seq<char>>::empty());
        assert(first_value(Seq::<Seq<char>>::empty(), key) is None);
        assert(key.is_prefix_of(la[0]));
        assert(la.drop_last() =~= Seq::<Seq<char>>::empty());
        assert(la.last() == la[0]);
        assert(kept_text(Seq::<Seq<char>>::empty(), key) == Seq::<char>::empty());
        assert(kept_text(la, key) == kept_text(la.drop_last(), key));
    }
    match existing {
        Some(content) => {
            let lines = lines_of(content);
            lemma_lines_have_no_newline(content);
            lemma_kept_text_relines(lines, key, a);
            assert(kept_text(lines, key) + Seq::<char>::empty() =~= kept_text(lines, key));
        },
        None => {
            assert(Seq::<char>::empty() + a =~= a);
            lemma_kept_text_relines(Seq::<Seq<char>>::empty(), key, a);
            assert(kept_text(Seq::<Seq<char>>::empty(), key) == Seq::<char>::empty());
            assert(Seq::<char>::empty() + Seq::<char>::empty() =~= Seq::<char>::empty());
        },
    }
}

/// Choosing the same locale twice leaves the session environment file as
/// choosing it once did, for any locale name without a newline and any
/// earlier file whose kept lines do not end in a carriage return.
pub proof fn law_env_file_idempotent(existing: Option<Seq<char>>, locale: Seq<char>)
    requires
        !locale.contains('\n'),
        no_kept_cr(existing, lang_key()),
    ensures
        env_file_text(Some(env_file_text(existing, locale)), locale) == env_file_text(
            existing,
            locale,
        ),
{
    lemma_keys();
    lemma_rewritten_idempotent(existing, lang_key(), locale);
}

/// Choosing the same locale twice leaves the shell profile as choosing it
/// once did, under the same conditions.
pub proof fn law_xprofile_idempotent(existing: Option<Seq<char>>, locale: Seq<char>)
    requires
        !locale.contains('\n'),
        no_kept_cr(existing, export_key()),
    ensures
        xprofile_text(Some(xprofile_text(existing, locale)), locale) == xprofile_text(
            existing,
            locale,
        ),
{
    lemma_keys();
    lemma_rewritten_idempotent(existing, export_key(), locale);
}

/// The locale found in the environment always wins over `locale.conf`.
pub proof fn law_environment_first(lang: Seq<char>, conf: Option<Seq<char>>)
    ensures
        effective_locale(Some(lang), conf) == lang,
{
}

} // verus!

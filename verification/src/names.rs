//! Configuration file names: which names are valid, which files are configurations,
//! and how names for new and copied configurations are chosen.
use vstd::prelude::*;
use crate::button::VirtualButton;
use crate::text::digits;
use crate::text::digit_char;
use crate::text::format_decimal;
use crate::text::lemma_div_smaller;
use crate::order::texts;
use crate::order::sorted_texts;
use crate::order::sort_names;

verus! {

/// What `str::to_uppercase` gives for a text (upper case by the Unicode rules).
pub uninterp spec fn spec_to_uppercase(s: Seq<char>) -> Seq<char>;

/// What `str::to_lowercase` gives for a text (lower case by the Unicode rules).
pub uninterp spec fn spec_to_lowercase(s: Seq<char>) -> Seq<char>;

/// Upper-cases a text with `str::to_uppercase`. The result is named, not described: it
/// depends on the text alone.
#[verifier::external_body]
fn to_uppercase(s: &str) -> (r: String)
    ensures
        r@ == spec_to_uppercase(s@),
{
    s.to_uppercase()
}

/// Lower-cases a text with `str::to_lowercase`. The result is named, not described: it
/// depends on the text alone.
#[verifier::external_body]
fn to_lowercase(s: &str) -> (r: String)
    ensures
        r@ == spec_to_lowercase(s@),
{
    s.to_lowercase()
}

/// The characters a file name cannot hold.
pub open spec fn is_forbidden_char(c: char) -> bool {
    c == '\\' || c == '/' || c == ':' || c == '*' || c == '?' || c == '"' || c == '<' || c == '>' || c == '|'
}

/// Whether `s` holds a forbidden character.
pub open spec fn has_forbidden_char(s: Seq<char>) -> bool {
    exists|i: int| 0 <= i < s.len() && is_forbidden_char(#[trigger] s[i])
}

/// The part of `s` before its first `.` (all of `s` when there is none).
pub open spec fn before_dot(s: Seq<char>) -> Seq<char> {
    if exists|i: int| 0 <= i < s.len() && s[i] == '.' {
        s.take(choose|i: int| 0 <= i < s.len() && s[i] == '.' && forall|j: int| 0 <= j < i ==> s[j] != '.')
    } else {
        s
    }
}

/// Whether `s` is a reserved device name.
pub open spec fn is_reserved_name(s: Seq<char>) -> bool {
    s == "CON"@ || s == "PRN"@ || s == "AUX"@ || s == "NUL"@ || s == "COM1"@ || s == "COM2"@ || s == "COM3"@
        || s == "COM4"@ || s == "COM5"@ || s == "COM6"@ || s == "COM7"@ || s == "COM8"@ || s == "COM9"@
        || s == "LPT1"@ || s == "LPT2"@ || s == "LPT3"@ || s == "LPT4"@ || s == "LPT5"@ || s == "LPT6"@
        || s == "LPT7"@ || s == "LPT8"@ || s == "LPT9"@
}

/// Whether `s` starts with a device name and a dot.
pub open spec fn starts_with_device(s: Seq<char>) -> bool {
    s.len() >= 4 && (s.take(4) == "CON."@ || s.take(4) == "PRN."@ || s.take(4) == "AUX."@ || s.take(4) == "NUL."@)
}

/// Whether a name (with upper-case form `upper`) is a valid file name: not empty, at
/// most 255 characters (the Windows limit), free of `\ / : * ? " < > |`, and,
/// upper-cased, neither a reserved device name before its first dot nor starting with
/// "CON.", "PRN.", "AUX." or "NUL.".
pub open spec fn valid_file_name(name: Seq<char>, upper: Seq<char>) -> bool {
    &&& name.len() != 0
    &&& name.len() <= 255
    &&& !has_forbidden_char(name)
    &&& !is_reserved_name(before_dot(upper))
    &&& !starts_with_device(upper)
}

/// Whether the first `n` characters of `s` are `w`.
fn prefix_is(s: &str, n: usize, w: &str) -> (r: bool)
    requires
        n <= s@.len(),
    ensures
        r == (s@.take(n as int) == w@),
{
    let m = w.unicode_len();
    if m != n {
        assert(s@.take(n as int).len() != w@.len());
        return false;
    }
    let mut i: usize = 0;
    while i < n
        invariant
            i <= n,
            n <= s@.len(),
            m == n,
            w@.len() == n,
            forall|j: int| 0 <= j < i ==> s@[j] == w@[j],
        decreases n - i,
    {
        if s.get_char(i) != w.get_char(i) {
            assert(s@.take(n as int)[i as int] != w@[i as int]);
            return false;
        }
        i = i + 1;
    }
    assert(s@.take(n as int) =~= w@);
    true
}

fn is_reserved_prefix(s: &str, n: usize) -> (r: bool)
    requires
        n <= s@.len(),
    ensures
        r == is_reserved_name(s@.take(n as int)),
{
    prefix_is(s, n, "CON") || prefix_is(s, n, "PRN") || prefix_is(s, n, "AUX") || prefix_is(s, n, "NUL")
        || prefix_is(s, n, "COM1") || prefix_is(s, n, "COM2") || prefix_is(s, n, "COM3") || prefix_is(s, n, "COM4")
        || prefix_is(s, n, "COM5") || prefix_is(s, n, "COM6") || prefix_is(s, n, "COM7") || prefix_is(s, n, "COM8")
        || prefix_is(s, n, "COM9") || prefix_is(s, n, "LPT1") || prefix_is(s, n, "LPT2") || prefix_is(s, n, "LPT3")
        || prefix_is(s, n, "LPT4") || prefix_is(s, n, "LPT5") || prefix_is(s, n, "LPT6") || prefix_is(s, n, "LPT7")
        || prefix_is(s, n, "LPT8") || prefix_is(s, n, "LPT9")
}

/// The length of the part of `s` before its first dot.
fn dot_position(s: &str) -> (k: usize)
    ensures
        k <= s@.len(),
        s@.take(k as int) == before_dot(s@),
{
    let n = s.unicode_len();
    let mut i: usize = 0;
    while i < n
        invariant
            i <= n,
            n == s@.len(),
            forall|j: int| 0 <= j < i ==> s@[j] != '.',
        decreases n - i,
    {
        if s.get_char(i) == '.' {
            proof {
                let c = choose|c: int| 0 <= c < s@.len() && s@[c] == '.' && forall|j: int| 0 <= j < c ==> s@[j] != '.';
                if c < i {
                    assert(s@[c] != '.');
                } else if i < c {
                    assert(s@[i as int] != '.');
                }
            }
            return i;
        }
        i = i + 1;
    }
    assert(s@.take(n as int) =~= s@);
    n
}

/// Decides whether `name` (with upper-case form `upper`) is a valid file name (see
/// `valid_file_name`).
pub fn check_file_name(name: &str, upper: &str) -> (r: bool)
    ensures
        r == valid_file_name(name@, upper@),
{
    let n = name.unicode_len();
    if n == 0 {
        return false;
    }
    if n > 255 {
        return false;
    }
    let mut i: usize = 0;
    while i < n
        invariant
            i <= n,
            n == name@.len(),
            forall|j: int| 0 <= j < i ==> !is_forbidden_char(#[trigger] name@[j]),
        decreases n - i,
    {
        let c = name.get_char(i);
        if c == '\\' || c == '/' || c == ':' || c == '*' || c == '?' || c == '"' || c == '<' || c == '>' || c == '|' {
            assert(is_forbidden_char(name@[i as int]));
            return false;
        }
        i = i + 1;
    }
    let k = dot_position(upper);
    if is_reserved_prefix(upper, k) {
        return false;
    }
    let m = upper.unicode_len();
    if m >= 4 {
        if prefix_is(upper, 4, "CON.") || prefix_is(upper, 4, "PRN.") || prefix_is(upper, 4, "AUX.") || prefix_is(upper, 4, "NUL.") {
            return false;
        }
    }
    true
}

/// Whether `name` is a valid name for a configuration file (see `valid_file_name`).
pub fn is_valid_filename(name: &str) -> (r: bool)
    ensures
        r == valid_file_name(name@, spec_to_uppercase(name@)),
{
    let upper = to_uppercase(name);
    check_file_name(name, upper.as_str())
}

/// The message that lists the characters a file name cannot hold.
pub fn get_invalid_chars_description() -> (s: String)
    ensures
        s@ == "文件名不能包含以下字符: \\ / : * ? \" < > |"@,
{
    String::from_str("文件名不能包含以下字符: \\ / : * ? \" < > |")
}

/// The `j`-th name tried for a new entry: `base` first, then `base` followed by the
/// numbers from `start` on.
pub open spec fn candidate(base: Seq<char>, start: nat, j: nat) -> Seq<char> {
    if j == 0 {
        base
    } else {
        base + digits((j + start - 1) as nat, 10)
    }
}

/// The texts of a list of names.
pub open spec fn names_view(names: Seq<String>) -> Seq<Seq<char>> {
    names.map_values(|s: String| s@)
}

/// Whether candidate `j` is the first one that is not taken.
pub open spec fn is_first_free(names: Seq<String>, base: Seq<char>, start: nat, j: nat) -> bool {
    &&& !names_view(names).contains(candidate(base, start, j))
    &&& forall|k: nat| k < j ==> names_view(names).contains(#[trigger] candidate(base, start, k))
}

/// The first candidate name that no name of `names` takes.
pub open spec fn first_free_name(names: Seq<String>, base: Seq<char>, start: nat) -> Seq<char> {
    candidate(base, start, choose|j: nat| is_first_free(names, base, start, j))
}

proof fn lemma_digits_nonempty(n: nat)
    ensures
        digits(n, 10).len() >= 1,
    decreases n,
{
    if n >= 10 {
        lemma_div_smaller(n, 10);
        lemma_digits_nonempty(n / 10);
    }
}

proof fn lemma_digit_char_injective(a: nat, b: nat)
    requires
        a < 10,
        b < 10,
        digit_char(a) == digit_char(b),
    ensures
        a == b,
{
}

/// Different numbers are written differently.
pub proof fn lemma_digits_injective(a: nat, b: nat)
    requires
        digits(a, 10) == digits(b, 10),
    ensures
        a == b,
    decreases a,
{
    if a < 10 && b < 10 {
        let sa = digits(a, 10);
        let sb = digits(b, 10);
        assert(sa == seq![digit_char(a)]);
        assert(sb == seq![digit_char(b)]);
        assert(sa[0] == digit_char(a));
        assert(sb[0] == digit_char(b));
        assert(sa[0] == sb[0]);
        lemma_digit_char_injective(a, b);
    } else if a < 10 {
        lemma_div_smaller(b, 10);
        lemma_digits_nonempty(b / 10);
        assert(digits(b, 10).len() >= 2);
    } else if b < 10 {
        lemma_div_smaller(a, 10);
        lemma_digits_nonempty(a / 10);
        assert(digits(a, 10).len() >= 2);
    } else {
        lemma_div_smaller(a, 10);
        lemma_div_smaller(b, 10);
        let da = digits(a, 10);
        let db = digits(b, 10);
        assert(da.last() == digit_char(a % 10));
        assert(db.last() == digit_char(b % 10));
        lemma_digit_char_injective(a % 10, b % 10);
        assert(da.drop_last() =~= digits(a / 10, 10));
        assert(db.drop_last() =~= digits(b / 10, 10));
        lemma_digits_injective(a / 10, b / 10);
        assert(a == (a / 10) * 10 + a % 10) by (nonlinear_arith);
        assert(b == (b / 10) * 10 + b % 10) by (nonlinear_arith);
    }
}

proof fn lemma_candidate_injective(base: Seq<char>, start: nat, j1: nat, j2: nat)
    requires
        candidate(base, start, j1) == candidate(base, start, j2),
        start >= 1,
    ensures
        j1 == j2,
{
    if j1 == 0 && j2 != 0 {
        lemma_digits_nonempty((j2 + start - 1) as nat);
        assert(candidate(base, start, j2).len() > base.len());
    } else if j1 != 0 && j2 == 0 {
        lemma_digits_nonempty((j1 + start - 1) as nat);
        assert(candidate(base, start, j1).len() > base.len());
    } else if j1 != 0 && j2 != 0 {
        let d1 = digits((j1 + start - 1) as nat, 10);
        let d2 = digits((j2 + start - 1) as nat, 10);
        assert((base + d1).skip(base.len() as int) =~= d1);
        assert((base + d2).skip(base.len() as int) =~= d2);
        lemma_digits_injective((j1 + start - 1) as nat, (j2 + start - 1) as nat);
    }
}

/// Among the first `names.len() + 1` candidates, one is not taken.
proof fn lemma_some_candidate_free(names: Seq<String>, base: Seq<char>, start: nat)
    requires
        start >= 1,
    ensures
        exists|j: nat| j <= names.len() && !names_view(names).contains(#[trigger] candidate(base, start, j)),
{
    let n = names.len();
    if forall|j: nat| j <= n ==> names_view(names).contains(#[trigger] candidate(base, start, j)) {
        let cs = Seq::new((n + 1) as nat, |j: int| candidate(base, start, j as nat));
        assert(cs.no_duplicates()) by {
            assert forall|i: int, k: int| 0 <= i < cs.len() && 0 <= k < cs.len() && i != k implies cs[i] != cs[k] by {
                if cs[i] == cs[k] {
                    lemma_candidate_injective(base, start, i as nat, k as nat);
                }
            }
        }
        cs.unique_seq_to_set();
        let nv = names_view(names);
        nv.lemma_cardinality_of_set();
        assert(cs.to_set().subset_of(nv.to_set())) by {
            assert forall|x: Seq<char>| cs.to_set().contains(x) implies nv.to_set().contains(x) by {
                let i = choose|i: int| 0 <= i < cs.len() && cs[i] == x;
                assert(nv.contains(candidate(base, start, i as nat)));
            }
        }
        vstd::set_lib::lemma_len_subset(cs.to_set(), nv.to_set());
        assert(false);
    }
}

/// Whether `names` holds a name with the text of `c`.
fn contains_name(names: &Vec<String>, c: &String) -> (r: bool)
    ensures
        r == names_view(names@).contains(c@),
{
    let mut i: usize = 0;
    while i < names.len()
        invariant
            i <= names@.len(),
            forall|j: int| 0 <= j < i ==> names@[j]@ != c@,
        decreases names@.len() - i,
    {
        if names[i] == *c {
            assert(names_view(names@)[i as int] == c@);
            return true;
        }
        i = i + 1;
    }
    proof {
        if names_view(names@).contains(c@) {
            let j = choose|j: int| 0 <= j < names_view(names@).len() && names_view(names@)[j] == c@;
            assert(names@[j]@ == c@);
        }
    }
    false
}

/// Builds candidate `j` (see `candidate`).
pub fn make_candidate(base: &str, start: usize, j: usize) -> (r: String)
    requires
        j + start < usize::MAX,
        start >= 1,
    ensures
        r@ == candidate(base@, start as nat, j as nat),
{
    let mut r = String::from_str(base);
    if j > 0 {
        let d = format_decimal(j + start - 1);
        r.append(d.as_str());
    }
    r
}

/// Chooses the first candidate name (see `candidate`) that no name of `names` takes.
pub fn first_free(names: &Vec<String>, base: &str, start: usize) -> (r: String)
    requires
        start >= 1,
        names@.len() + start + 1 < usize::MAX,
    ensures
        r@ == first_free_name(names@, base@, start as nat),
{
    proof { lemma_some_candidate_free(names@, base@, start as nat); }
    let n = names.len();
    let mut j: usize = 0;
    while j <= n
        invariant
            j <= n + 1,
            n == names@.len(),
            n + start + 1 < usize::MAX,
            start >= 1,
            forall|k: nat| k < j ==> names_view(names@).contains(#[trigger] candidate(base@, start as nat, k)),
            exists|f: nat| f <= n && !names_view(names@).contains(#[trigger] candidate(base@, start as nat, f)),
        decreases n + 1 - j,
    {
        let c = make_candidate(base, start, j);
        if !contains_name(names, &c) {
            proof {
                assert(is_first_free(names@, base@, start as nat, j as nat));
                let w = choose|w: nat| is_first_free(names@, base@, start as nat, w);
                assert(is_first_free(names@, base@, start as nat, w));
                if w < j {
                    assert(names_view(names@).contains(candidate(base@, start as nat, w)));
                } else if j < w {
                    assert(names_view(names@).contains(candidate(base@, start as nat, j as nat)));
                }
            }
            return c;
        }
        j = j + 1;
    }
    proof {
        let f = choose|f: nat| f <= n && !names_view(names@).contains(#[trigger] candidate(base@, start as nat, f));
        assert(names_view(names@).contains(candidate(base@, start as nat, f)));
    }
    String::new()
}

/// The base of the name of a new configuration.
pub open spec fn new_config_base() -> Seq<char> {
    seq!['新', '配', '置']
}

/// The name the configuration list gives a new configuration: "新配置", or "新配置1",
/// "新配置2", ... , the first that no listed configuration has.
pub fn new_config_name(names: &Vec<String>) -> (r: String)
    requires
        names@.len() + 2 < usize::MAX,
    ensures
        r@ == first_free_name(names@, new_config_base(), 1),
{
    proof {
        reveal_strlit("新配置");
        assert("新配置"@ =~= new_config_base());
    }
    first_free(names, "新配置", 1)
}

/// The name a copy of configuration `name` gets: "{name}_副本", or "{name}_副本2",
/// "{name}_副本3", ... , the first that no listed configuration has.
pub fn copy_config_name(names: &Vec<String>, name: &str) -> (r: String)
    requires
        names@.len() + 3 < usize::MAX,
    ensures
        r@ == first_free_name(names@, name@ + seq!['_', '副', '本'], 2),
{
    proof { reveal_strlit("_副本"); }
    let mut base = String::from_str(name);
    base.append("_副本");
    assert(base@ =~= name@ + seq!['_', '副', '本']);
    first_free(names, base.as_str(), 2)
}

/// A chosen free name is not taken, and every candidate before it is.
pub proof fn lemma_first_free_is_free(names: Seq<String>, base: Seq<char>, start: nat)
    requires
        start >= 1,
    ensures
        !names_view(names).contains(first_free_name(names, base, start)),
{
    lemma_some_candidate_free(names, base, start);
    let f = choose|f: nat| f <= names.len() && !names_view(names).contains(#[trigger] candidate(base, start, f));
    lemma_first_free_exists(names, base, start, f);
    let w = choose|w: nat| is_first_free(names, base, start, w);
    assert(is_first_free(names, base, start, w));
}

proof fn lemma_first_free_exists(names: Seq<String>, base: Seq<char>, start: nat, f: nat)
    requires
        !names_view(names).contains(candidate(base, start, f)),
    ensures
        exists|w: nat| is_first_free(names, base, start, w),
    decreases f,
{
    if forall|k: nat| k < f ==> names_view(names).contains(#[trigger] candidate(base, start, k)) {
        assert(is_first_free(names, base, start, f));
    } else {
        let k = choose|k: nat| k < f && !names_view(names).contains(#[trigger] candidate(base, start, k));
        lemma_first_free_exists(names, base, start, k);
    }
}

/// Whether text `s` ends with `suffix`.
pub open spec fn ends_with(s: Seq<char>, suffix: Seq<char>) -> bool {
    s.len() >= suffix.len() && s.skip(s.len() - suffix.len()) == suffix
}

fn text_ends_with(s: &str, suffix: &str) -> (r: bool)
    ensures
        r == ends_with(s@, suffix@),
{
    let n = s.unicode_len();
    let m = suffix.unicode_len();
    if n < m {
        return false;
    }
    let mut i: usize = 0;
    while i < m
        invariant
            i <= m,
            m <= n,
            n == s@.len(),
            m == suffix@.len(),
            forall|j: int| 0 <= j < i ==> s@[n - m + j] == suffix@[j],
        decreases m - i,
    {
        if s.get_char(n - m + i) != suffix.get_char(i) {
            assert(s@.skip(n - m)[i as int] != suffix@[i as int]);
            return false;
        }
        i = i + 1;
    }
    assert(s@.skip(n - m) =~= suffix@);
    true
}

/// Whether a file named `name` (lower-cased `lower`) is a configuration the overlay
/// loads: its name ends with ".json" and is not "settings.json", case aside.
pub open spec fn is_config_entry(lower: Seq<char>) -> bool {
    ends_with(lower, ".json"@) && lower != "settings.json"@
}

/// Decides whether the file named `name` is a configuration the overlay loads.
pub fn is_config_file(name: &str) -> (r: bool)
    ensures
        r == is_config_entry(spec_to_lowercase(name@)),
{
    let lower = to_lowercase(name);
    let s = lower.as_str();
    proof {
        reveal_strlit("settings.json");
        if s@.len() == 13 {
            assert(s@.take(13) =~= s@);
        }
    }
    text_ends_with(s, ".json") && !(s.unicode_len() == 13 && prefix_is(s, 13, "settings.json"))
}

/// The configurations among the files named `files`, in order.
pub open spec fn config_entries(files: Seq<String>) -> Seq<Seq<char>> {
    texts(files).filter(|t: Seq<char>| is_config_entry(spec_to_lowercase(t)))
}

/// Keeps the names of the files that are configurations, in order.
pub fn config_file_names(files: &Vec<String>) -> (r: Vec<String>)
    ensures
        texts(r@) == config_entries(files@),
{
    let mut r: Vec<String> = Vec::new();
    let mut i: usize = 0;
    while i < files.len()
        invariant
            i <= files@.len(),
            texts(r@) == texts(files@.take(i as int)).filter(|t: Seq<char>| is_config_entry(spec_to_lowercase(t))),
        decreases files@.len() - i,
    {
        proof {
            reveal(Seq::filter);
            assert(texts(files@.take(i as int + 1)).drop_last() =~= texts(files@.take(i as int)));
        }
        if is_config_file(files[i].as_str()) {
            r.push(files[i].clone());
        }
        proof {
            assert(texts(r@) =~= texts(files@.take(i as int + 1)).filter(|t: Seq<char>| is_config_entry(spec_to_lowercase(t))));
        }
        i = i + 1;
    }
    assert(files@.take(files@.len() as int) =~= files@);
    r
}

/// The stem of a file name whose extension is "json" (exactly): what comes before the
/// final ".json", when that is not empty.
pub open spec fn json_stem(name: Seq<char>) -> Option<Seq<char>> {
    if name.len() >= 6 && ends_with(name, ".json"@) {
        Some(name.take(name.len() - 5))
    } else {
        None
    }
}

/// The names the configuration list shows for the files named `files`, in order: the
/// stems of the ".json" files, except a stem that is "settings" case aside.
pub open spec fn listed_stems(files: Seq<Seq<char>>) -> Seq<Seq<char>>
    decreases files.len(),
{
    if files.len() == 0 {
        Seq::empty()
    } else {
        let rest = listed_stems(files.drop_last());
        match json_stem(files.last()) {
            Some(st) => if spec_to_lowercase(st) != "settings"@ {
                rest.push(st)
            } else {
                rest
            },
            None => rest,
        }
    }
}

fn stem_if_listed(name: &str) -> (r: Option<String>)
    ensures
        match json_stem(name@) {
            Some(st) => if spec_to_lowercase(st) != "settings"@ {
                r matches Some(x) && x@ == st
            } else {
                r is None
            },
            None => r is None,
        },
{
    let n = name.unicode_len();
    proof { reveal_strlit(".json"); }
    if n >= 6 && text_ends_with(name, ".json") {
        let stem = name.substring_char(0, n - 5);
        assert(stem@ =~= name@.take(n - 5));
        let lower = to_lowercase(stem);
        let l = lower.as_str();
        if l.unicode_len() == 8 && prefix_is(l, 8, "settings") {
            assert(l@ =~= l@.take(8));
            None
        } else {
            proof {
                if l@ == "settings"@ {
                    reveal_strlit("settings");
                    assert(l@.len() == 8);
                    assert(l@.take(8) =~= l@);
                }
            }
            Some(String::from_str(stem))
        }
    } else {
        None
    }
}

/// The configuration list: the listed stems (see `listed_stems`) of the files named
/// `files`, sorted by name.
pub fn config_list(files: &Vec<String>) -> (r: Vec<String>)
    ensures
        sorted_texts(texts(r@)),
        texts(r@).to_multiset() == listed_stems(texts(files@)).to_multiset(),
{
    let mut v: Vec<String> = Vec::new();
    let mut i: usize = 0;
    while i < files.len()
        invariant
            i <= files@.len(),
            texts(v@) == listed_stems(texts(files@.take(i as int))),
        decreases files@.len() - i,
    {
        assert(texts(files@.take(i as int + 1)).drop_last() =~= texts(files@.take(i as int)));
        assert(texts(files@.take(i as int + 1)).last() == files@[i as int]@);
        match stem_if_listed(files[i].as_str()) {
            Some(st) => {
                v.push(st);
            },
            None => {},
        }
        assert(texts(v@) =~= listed_stems(texts(files@.take(i as int + 1))));
        i = i + 1;
    }
    assert(files@.take(files@.len() as int) =~= files@);
    sort_names(v)
}

/// `s` with every trailing ".json" taken off (as `trim_end_matches(".json")`).
pub open spec fn trim_json(s: Seq<char>) -> Seq<char>
    decreases s.len(),
{
    if s.len() >= 5 && ends_with(s, ".json"@) {
        trim_json(s.take(s.len() - 5))
    } else {
        s
    }
}

/// Takes every trailing ".json" off a name.
pub fn trim_json_suffix(name: &str) -> (r: String)
    ensures
        r@ == trim_json(name@),
{
    proof { reveal_strlit(".json"); }
    let mut n = name.unicode_len();
    let mut cur = name.substring_char(0, n);
    assert(cur@ =~= name@);
    while n >= 5 && text_ends_with(cur, ".json")
        invariant
            n == cur@.len(),
            trim_json(cur@) == trim_json(name@),
        decreases n,
    {
        let next = cur.substring_char(0, n - 5);
        assert(next@ =~= cur@.take(n - 5));
        cur = next;
        n = n - 5;
    }
    String::from_str(cur)
}

/// `name` followed by ".json".
pub fn with_json_suffix(name: &str) -> (r: String)
    ensures
        r@ == name@ + ".json"@,
{
    let mut r = String::from_str(name);
    r.append(".json");
    r
}

/// The position of the first name of `names` with the text `name`, if any.
pub open spec fn name_position(names: Seq<String>, name: Seq<char>) -> Option<int> {
    if exists|i: int| 0 <= i < names.len() && names[i]@ == name && forall|j: int| 0 <= j < i ==> names[j]@ != name {
        Some(choose|i: int| 0 <= i < names.len() && names[i]@ == name && forall|j: int| 0 <= j < i ==> names[j]@ != name)
    } else {
        None
    }
}

/// Finds the first name of `names` with the text of `name`.
pub fn find_name(names: &Vec<String>, name: &str) -> (r: Option<usize>)
    ensures
        match r {
            Some(i) => name_position(names@, name@) == Some(i as int),
            None => name_position(names@, name@) is None,
        },
{
    let target = String::from_str(name);
    let mut i: usize = 0;
    while i < names.len()
        invariant
            i <= names@.len(),
            target@ == name@,
            forall|j: int| 0 <= j < i ==> names@[j]@ != name@,
        decreases names@.len() - i,
    {
        if names[i] == target {
            proof {
                let c = choose|c: int| 0 <= c < names@.len() && names@[c]@ == name@ && forall|j: int| 0 <= j < c ==> names@[j]@ != name@;
                if c < i {
                    assert(names@[c]@ != name@);
                } else if i < c {
                    assert(names@[i as int]@ != name@);
                }
            }
            return Some(i);
        }
        i = i + 1;
    }
    proof {
        if exists|c: int| 0 <= c < names@.len() && names@[c]@ == name@ && forall|j: int| 0 <= j < c ==> names@[j]@ != name@ {
            let c = choose|c: int| 0 <= c < names@.len() && names@[c]@ == name@ && forall|j: int| 0 <= j < c ==> names@[j]@ != name@;
            assert(names@[c]@ != name@);
        }
    }
    None
}

/// The file name of candidate `i` for a new configuration: "新配置.json", then
/// "新配置1.json", "新配置2.json", ...
pub fn new_config_file_name(i: usize) -> (r: String)
    requires
        i + 1 < usize::MAX,
    ensures
        r@ == candidate(new_config_base(), 1, i as nat) + ".json"@,
{
    proof {
        reveal_strlit("新配置");
        assert("新配置"@ =~= new_config_base());
    }
    let mut r = make_candidate("新配置", 1, i);
    r.append(".json");
    r
}

/// The file name of candidate `i` for a copy of configuration `base`: "{base}_copy.json",
/// then "{base}_copy1.json", "{base}_copy2.json", ...
pub fn copy_file_name(base: &str, i: usize) -> (r: String)
    requires
        i + 1 < usize::MAX,
    ensures
        r@ == candidate(base@ + "_copy"@, 1, i as nat) + ".json"@,
{
    let mut b = String::from_str(base);
    b.append("_copy");
    let mut r = make_candidate(b.as_str(), 1, i);
    r.append(".json");
    r
}

/// The configuration directory: "configs" inside the program's directory `exe_dir`
/// (joined with a backslash unless the directory already ends with a separator), or
/// "configs" when the program's directory is unknown.
pub open spec fn spec_config_directory(exe_dir: Option<Seq<char>>) -> Seq<char> {
    match exe_dir {
        Some(d) => if d.len() == 0 {
            "configs"@
        } else if d.last() == '\\' || d.last() == '/' {
            d + "configs"@
        } else {
            d + "\\"@ + "configs"@
        },
        None => "configs"@,
    }
}

/// Computes the configuration directory from the program's directory.
pub fn get_config_directory(exe_dir: Option<String>) -> (r: String)
    ensures
        r@ == spec_config_directory(match exe_dir {
            Some(d) => Some(d@),
            None => None,
        }),
{
    match exe_dir {
        Some(d) => {
            let n = d.as_str().unicode_len();
            if n == 0 {
                String::from_str("configs")
            } else {
                let last = d.as_str().get_char(n - 1);
                let mut r = d;
                if last != '\\' && last != '/' {
                    r.append("\\");
                }
                r.append("configs");
                r
            }
        },
        None => String::from_str("configs"),
    }
}

/// Whether `c` is white space (the Unicode White_Space property, as
/// `char::is_whitespace`).
pub open spec fn is_white(c: char) -> bool {
    ('\u{9}' <= c <= '\u{d}') || c == ' ' || c == '\u{85}' || c == '\u{a0}' || c == '\u{1680}' || ('\u{2000}' <= c
        <= '\u{200a}') || c == '\u{2028}' || c == '\u{2029}' || c == '\u{202f}' || c == '\u{205f}' || c == '\u{3000}'
}

/// Whether a label is blank: empty or white space only.
pub open spec fn is_blank(s: Seq<char>) -> bool {
    forall|i: int| 0 <= i < s.len() ==> is_white(#[trigger] s[i])
}

fn blank(s: &str) -> (r: bool)
    ensures
        r == is_blank(s@),
{
    let n = s.unicode_len();
    let mut i: usize = 0;
    while i < n
        invariant
            i <= n,
            n == s@.len(),
            forall|j: int| 0 <= j < i ==> is_white(#[trigger] s@[j]),
        decreases n - i,
    {
        let c = s.get_char(i);
        let w = ('\u{9}' <= c && c <= '\u{d}') || c == ' ' || c == '\u{85}' || c == '\u{a0}' || c == '\u{1680}' || ('\u{2000}'
            <= c && c <= '\u{200a}') || c == '\u{2028}' || c == '\u{2029}' || c == '\u{202f}' || c == '\u{205f}' || c
            == '\u{3000}';
        if !w {
            assert(!is_white(s@[i as int]));
            return false;
        }
        i = i + 1;
    }
    true
}

/// The label a blank label is saved as.
pub open spec fn unnamed_label() -> Seq<char> {
    seq!['未', '命', '名']
}

/// Before saving, gives every button with a blank label the label "未命名".
pub fn name_blank_labels(bs: &mut Vec<VirtualButton>)
    ensures
        final(bs)@.len() == old(bs)@.len(),
        forall|i: int| 0 <= i < old(bs)@.len() ==> {
            let b = old(bs)@[i];
            let c = #[trigger] final(bs)@[i];
            if is_blank(b.label@) {
                c == (VirtualButton { label: c.label, ..b }) && c.label@ == unnamed_label()
            } else {
                c == b
            }
        },
{
    proof {
        reveal_strlit("未命名");
    }
    let ghost b0 = bs@;
    let n = bs.len();
    let mut i: usize = 0;
    while i < n
        invariant
            i <= n,
            n == b0.len(),
            bs@.len() == n,
            b0 == old(bs)@,
            "未命名"@ == unnamed_label(),
            forall|j: int| 0 <= j < i ==> {
                let b = b0[j];
                let c = #[trigger] bs@[j];
                if is_blank(b.label@) {
                    c == (VirtualButton { label: c.label, ..b }) && c.label@ == unnamed_label()
                } else {
                    c == b
                }
            },
            forall|j: int| i <= j < n ==> #[trigger] bs@[j] == b0[j],
        decreases n - i,
    {
        if blank(bs[i].label.as_str()) {
            bs[i].label = String::from_str("未命名");
        }
        i = i + 1;
    }
}

/// A modification time: seconds and nanoseconds since the Unix epoch.
pub open spec fn time_lt(a: (u64, u32), b: (u64, u32)) -> bool {
    a.0 < b.0 || (a.0 == b.0 && a.1 < b.1)
}

/// Whether entry `i` of `files` (name and modification time) is the configuration
/// loaded at start: the first of the most recently modified configurations, modified
/// after the epoch.
pub open spec fn is_latest(files: Seq<(String, (u64, u32))>, i: int) -> bool {
    &&& 0 <= i < files.len()
    &&& is_config_entry(spec_to_lowercase(files[i].0@))
    &&& time_lt((0, 0), files[i].1)
    &&& forall|j: int| 0 <= j < i && is_config_entry(spec_to_lowercase(files[j].0@)) ==> time_lt(#[trigger] files[j].1, files[i].1)
    &&& forall|j: int| i < j < files.len() && is_config_entry(spec_to_lowercase(files[j].0@)) ==> !time_lt(files[i].1, #[trigger] files[j].1)
}

/// Finds the configuration loaded at start (see `is_latest`), if any.
pub fn latest_config(files: &Vec<(String, (u64, u32))>) -> (r: Option<usize>)
    ensures
        match r {
            Some(i) => is_latest(files@, i as int),
            None => forall|i: int| !is_latest(files@, i),
        },
{
    let mut best: Option<usize> = None;
    let mut best_t: (u64, u32) = (0, 0);
    let mut i: usize = 0;
    while i < files.len()
        invariant
            i <= files@.len(),
            match best {
                Some(b) => {
                    &&& b < i
                    &&& best_t == files@[b as int].1
                    &&& is_config_entry(spec_to_lowercase(files@[b as int].0@))
                    &&& time_lt((0, 0), best_t)
                    &&& forall|j: int| 0 <= j < b && is_config_entry(spec_to_lowercase(files@[j].0@)) ==> time_lt(#[trigger] files@[j].1, best_t)
                    &&& forall|j: int| b < j < i && is_config_entry(spec_to_lowercase(files@[j].0@)) ==> !time_lt(best_t, #[trigger] files@[j].1)
                },
                None => {
                    &&& best_t == (0u64, 0u32)
                    &&& forall|j: int| 0 <= j < i && is_config_entry(spec_to_lowercase(files@[j].0@)) ==> !time_lt((0, 0), #[trigger] files@[j].1)
                },
            },
        decreases files@.len() - i,
    {
        let t = files[i].1;
        if is_config_file(files[i].0.as_str()) {
            if t.0 > best_t.0 || (t.0 == best_t.0 && t.1 > best_t.1) {
                best = Some(i);
                best_t = t;
            }
        }
        i = i + 1;
    }
    proof {
        match best {
            Some(b) => {},
            None => {
                assert forall|k: int| !is_latest(files@, k) by {
                    if 0 <= k < files@.len() && is_config_entry(spec_to_lowercase(files@[k].0@)) {
                        assert(!time_lt((0, 0), files@[k].1));
                    }
                }
            },
        }
    }
    best
}

/// `s` without its leading white space.
pub open spec fn trim_start(s: Seq<char>) -> Seq<char>
    decreases s.len(),
{
    if s.len() > 0 && is_white(s[0]) {
        trim_start(s.drop_first())
    } else {
        s
    }
}

/// `s` without its trailing white space.
pub open spec fn trim_end(s: Seq<char>) -> Seq<char>
    decreases s.len(),
{
    if s.len() > 0 && is_white(s.last()) {
        trim_end(s.drop_last())
    } else {
        s
    }
}

/// `s` without leading and trailing white space (as `str::trim`).
pub open spec fn trimmed(s: Seq<char>) -> Seq<char> {
    trim_end(trim_start(s))
}

fn white(c: char) -> (r: bool)
    ensures
        r == is_white(c),
{
    ('\u{9}' <= c && c <= '\u{d}') || c == ' ' || c == '\u{85}' || c == '\u{a0}' || c == '\u{1680}' || ('\u{2000}' <= c
        && c <= '\u{200a}') || c == '\u{2028}' || c == '\u{2029}' || c == '\u{202f}' || c == '\u{205f}' || c == '\u{3000}'
}

/// Takes the leading and trailing white space off a text.
pub fn trim_text(s: &str) -> (r: String)
    ensures
        r@ == trimmed(s@),
{
    let n = s.unicode_len();
    let mut a: usize = 0;
    assert(s@.skip(0) =~= s@);
    while a < n && white(s.get_char(a))
        invariant
            a <= n,
            n == s@.len(),
            trim_start(s@.skip(a as int)) == trim_start(s@),
        decreases n - a,
    {
        assert(s@.skip(a as int).drop_first() =~= s@.skip(a as int + 1));
        a = a + 1;
    }
    let ghost st = s@.skip(a as int);
    assert(trim_start(s@) == st);
    let mut b: usize = n;
    assert(s@.subrange(a as int, n as int) =~= st);
    while b > a && white(s.get_char(b - 1))
        invariant
            a <= b <= n,
            n == s@.len(),
            st == s@.skip(a as int),
            trim_end(s@.subrange(a as int, b as int)) == trim_end(st),
        decreases b - a,
    {
        assert(s@.subrange(a as int, b as int).drop_last() =~= s@.subrange(a as int, b as int - 1));
        b = b - 1;
    }
    proof {
        assert(st =~= s@.subrange(a as int, n as int));
    }
    String::from_str(s.substring_char(a, b))
}

/// Whether renaming configuration `idx` of the list `names` to `new_name` (upper-cased
/// `upper`) goes ahead: it is a valid file name, another name than the configuration's,
/// and no configuration has it.
pub open spec fn rename_goes_ahead(names: Seq<String>, idx: Option<usize>, new_name: Seq<char>, upper: Seq<char>) -> bool {
    &&& new_name.len() != 0
    &&& valid_file_name(new_name, upper)
    &&& idx matches Some(i) && i < names.len() && names[i as int]@ != new_name
    &&& !names_view(names).contains(new_name)
}

/// Decides whether configuration `idx` of the list `names` is renamed to `new_name`
/// (the typed text, trimmed; see `rename_goes_ahead`).
pub fn rename_allowed(names: &Vec<String>, idx: Option<usize>, new_name: &str) -> (r: bool)
    ensures
        r == rename_goes_ahead(names@, idx, new_name@, spec_to_uppercase(new_name@)),
{
    if new_name.unicode_len() == 0 || !is_valid_filename(new_name) {
        return false;
    }
    let n = String::from_str(new_name);
    match idx {
        Some(i) => i < names.len() && names[i] != n && !contains_name(names, &n),
        None => false,
    }
}

} // verus!

//! Text helpers shared by the protocol modules.

use vstd::prelude::*;

verus! {

/// `String::push` appends one character.
pub assume_specification[ String::push ](s: &mut String, ch: char)
    ensures
        final(s)@ == old(s)@.push(ch),
;

/// The text in lower case, as `str::to_lowercase` gives it.
pub uninterp spec fn lowercase(text: Seq<char>) -> Seq<char>;

/// Lower case of one ASCII character; any other character is kept.
pub open spec fn ascii_lower(c: char) -> char {
    if 'A' <= c <= 'Z' {
        ((c as u32) + 32) as char
    } else {
        c
    }
}

/// Every character is in the ASCII range.
pub open spec fn all_ascii(text: Seq<char>) -> bool {
    forall|i: int| 0 <= i < text.len() ==> (#[trigger] text[i] as u32) < 128
}

/// No character is an ASCII capital letter.
pub open spec fn no_capitals(text: Seq<char>) -> bool {
    forall|i: int| 0 <= i < text.len() ==> !('A' <= #[trigger] text[i] && text[i] <= 'Z')
}

/// `str::to_lowercase`: the Unicode lower case of a text, in which no ASCII capital
/// letter is left. On an ASCII text this turns each capital letter into its small
/// letter and keeps the rest; of other texts no more is said.
#[verifier::external_body]
fn to_lowercase(text: &str) -> (r: String)
    ensures
        r@ == lowercase(text@),
        no_capitals(r@),
        all_ascii(text@) ==> r@ == text@.map_values(|c: char| ascii_lower(c)),
{
    text.to_lowercase()
}

/// The text in lower case.
pub open spec fn lowered(text: Seq<char>) -> Seq<char> {
    if all_ascii(text) {
        text.map_values(|c: char| ascii_lower(c))
    } else {
        lowercase(text)
    }
}

/// The text in lower case.
pub fn lower(text: &str) -> (r: String)
    ensures
        r@ == lowered(text@),
        no_capitals(r@),
{
    to_lowercase(text)
}

/// Whether two string slices hold the same characters.
pub fn same(a: &str, b: &str) -> (r: bool)
    ensures
        r == (a@ == b@),
{
    a.to_owned() == b.to_owned()
}

/// Whether an optional text is present and holds exactly `expected`.
pub fn is_some_text(value: &Option<String>, expected: &str) -> (r: bool)
    ensures
        r == (value is Some && value->0@ == expected@),
{
    match value {
        Some(s) => same(s, expected),
        None => false,
    }
}

/// Whether two optional texts are both absent or hold the same characters.
pub fn same_optional(a: &Option<String>, b: &Option<String>) -> (r: bool)
    ensures
        r == match (*a, *b) {
            (Some(x), Some(y)) => x@ == y@,
            (None, None) => true,
            _ => false,
        },
{
    match (a, b) {
        (Some(x), Some(y)) => same(x, y),
        (None, None) => true,
        _ => false,
    }
}

/// Two texts one after the other.
pub fn cat2(a: &str, b: &str) -> (r: String)
    ensures
        r@ == a@ + b@,
{
    let mut out = a.to_owned();
    out.append(b);
    out
}

/// Three texts one after the other.
pub fn cat3(a: &str, b: &str, c: &str) -> (r: String)
    ensures
        r@ == a@ + b@ + c@,
{
    let mut out = a.to_owned();
    out.append(b);
    out.append(c);
    out
}

/// Four texts one after the other.
pub fn cat4(a: &str, b: &str, c: &str, d: &str) -> (r: String)
    ensures
        r@ == a@ + b@ + c@ + d@,
{
    let mut out = cat3(a, b, c);
    out.append(d);
    out
}

/// Five texts one after the other.
pub fn cat5(a: &str, b: &str, c: &str, d: &str, e: &str) -> (r: String)
    ensures
        r@ == a@ + b@ + c@ + d@ + e@,
{
    let mut out = cat4(a, b, c, d);
    out.append(e);
    out
}

/// The characters of a string, in order.
pub fn to_chars(s: &str) -> (r: Vec<char>)
    ensures
        r@ == s@,
{
    let mut out: Vec<char> = Vec::new();
    for c in it: s.chars()
        invariant
            out@ == it.seq().take(it.index()),
            it.seq() == s@,
    {
        out.push(c);
    }
    out
}

/// The string made of `chars[from..to]`.
pub fn slice_text(chars: &Vec<char>, from: usize, to: usize) -> (r: String)
    requires
        from <= to <= chars.len(),
    ensures
        r@ == chars@.subrange(from as int, to as int),
{
    let mut out = String::new();
    let mut i: usize = from;
    while i < to
        invariant
            from <= i <= to <= chars.len(),
            out@ == chars@.subrange(from as int, i as int),
        decreases to - i,
    {
        out.push(chars[i]);
        i += 1;
        assert(chars@.subrange(from as int, i as int) =~= chars@.subrange(
            from as int,
            i - 1,
        ).push(chars@[i - 1]));
    }
    out
}

/// The string made of the given characters.
pub fn from_chars(chars: &Vec<char>) -> (r: String)
    ensures
        r@ == chars@,
{
    let out = slice_text(chars, 0, chars.len());
    assert(chars@.subrange(0, chars@.len() as int) =~= chars@);
    out
}

/// The text begins with `prefix`.
pub open spec fn begins(text: Seq<char>, prefix: Seq<char>) -> bool {
    prefix.len() <= text.len() && text.subrange(0, prefix.len() as int) == prefix
}

/// The text ends with `suffix`.
pub open spec fn ends(text: Seq<char>, suffix: Seq<char>) -> bool {
    suffix.len() <= text.len() && text.subrange(
        text.len() - suffix.len(),
        text.len() as int,
    ) == suffix
}

/// Whether `chars[at..]` begins with `part`.
fn matches_at(chars: &Vec<char>, at: usize, part: &Vec<char>) -> (r: bool)
    requires
        at + part.len() <= chars.len(),
    ensures
        r == (chars@.subrange(at as int, at + part.len()) == part@),
{
    let mut i: usize = 0;
    while i < part.len()
        invariant
            i <= part.len(),
            at + part.len() <= chars.len(),
            forall|j: int| 0 <= j < i ==> chars@[at + j] == #[trigger] part@[j],
        decreases part.len() - i,
    {
        if chars[at + i] != part[i] {
            proof {
                let got = chars@.subrange(at as int, at + part.len());
                assert(got[i as int] != part@[i as int]);
            }
            return false;
        }
        i += 1;
    }
    assert(chars@.subrange(at as int, at + part.len()) =~= part@);
    true
}

/// Whether the text begins with `prefix`.
pub fn starts_with(text: &str, prefix: &str) -> (r: bool)
    ensures
        r == begins(text@, prefix@),
{
    let chars = to_chars(text);
    let part = to_chars(prefix);
    if part.len() > chars.len() {
        return false;
    }
    matches_at(&chars, 0, &part)
}

/// Whether the text ends with `suffix`.
pub fn ends_with(text: &str, suffix: &str) -> (r: bool)
    ensures
        r == ends(text@, suffix@),
{
    let chars = to_chars(text);
    let part = to_chars(suffix);
    if part.len() > chars.len() {
        return false;
    }
    matches_at(&chars, chars.len() - part.len(), &part)
}

/// White space as Unicode defines it, the characters that trimming removes.
pub open spec fn is_space(c: char) -> bool {
    let n = c as u32;
    ||| 0x09 <= n <= 0x0d
    ||| n == 0x20
    ||| n == 0x85
    ||| n == 0xa0
    ||| n == 0x1680
    ||| 0x2000 <= n <= 0x200a
    ||| n == 0x2028
    ||| n == 0x2029
    ||| n == 0x202f
    ||| n == 0x205f
    ||| n == 0x3000
}

/// The text without the white space at its ends.
pub open spec fn trimmed(text: Seq<char>) -> Seq<char>
    decreases text.len(),
{
    if text.len() == 0 {
        text
    } else if is_space(text[0]) {
        trimmed(text.drop_first())
    } else if is_space(text.last()) {
        trimmed(text.drop_last())
    } else {
        text
    }
}

fn is_space_char(c: char) -> (r: bool)
    ensures
        r == is_space(c),
{
    let n: u32 = c as u32;
    (0x09 <= n && n <= 0x0d) || n == 0x20 || n == 0x85 || n == 0xa0 || n == 0x1680 || (0x2000 <= n
        && n <= 0x200a) || n == 0x2028 || n == 0x2029 || n == 0x202f || n == 0x205f || n == 0x3000
}

/// The text without the white space at its ends.
pub fn trim(text: &str) -> (r: String)
    ensures
        r@ == trimmed(text@),
{
    let chars = to_chars(text);
    let mut from: usize = 0;
    let mut to: usize = chars.len();
    assert(text@.subrange(0, text@.len() as int) =~= text@);
    while from < to && is_space_char(chars[from])
        invariant
            from <= to <= chars.len(),
            chars@ == text@,
            trimmed(text@) == trimmed(text@.subrange(from as int, to as int)),
        decreases to - from,
    {
        assert(text@.subrange(from as int, to as int).drop_first() =~= text@.subrange(
            from + 1,
            to as int,
        ));
        from += 1;
    }
    while from < to && is_space_char(chars[to - 1])
        invariant
            from <= to <= chars.len(),
            chars@ == text@,
            from < to ==> !is_space(text@[from as int]),
            trimmed(text@) == trimmed(text@.subrange(from as int, to as int)),
        decreases to - from,
    {
        assert(text@.subrange(from as int, to as int).drop_last() =~= text@.subrange(
            from as int,
            to - 1,
        ));
        to -= 1;
    }
    slice_text(&chars, from, to)
}

/// The decimal digits of a number, most significant first.
pub open spec fn decimal_digits(n: nat) -> Seq<char>
    decreases n,
{
    if n < 10 {
        seq![((48 + n) as u8) as char]
    } else {
        decimal_digits(n / 10).push(((48 + n % 10) as u8) as char)
    }
}

/// Different numbers have different digits.
pub proof fn decimal_digits_differ(a: nat, b: nat)
    requires
        a != b,
    ensures
        decimal_digits(a) != decimal_digits(b),
    decreases a,
{
    let x = decimal_digits(a);
    let y = decimal_digits(b);
    if x == y {
        decimal_digits_end(a);
        decimal_digits_end(b);
        if a < 10 || b < 10 {
            assert(a < 10 && b < 10);
        } else {
            assert(x.drop_last() =~= decimal_digits(a / 10));
            assert(y.drop_last() =~= decimal_digits(b / 10));
            if a / 10 != b / 10 {
                decimal_digits_differ(a / 10, b / 10);
            }
        }
        assert(false);
    }
}

proof fn decimal_digits_end(n: nat)
    ensures
        decimal_digits(n).len() >= 1,
        decimal_digits(n).last() == ((48 + n % 10) as u8) as char,
        n >= 10 ==> decimal_digits(n).len() >= 2,
        n < 10 ==> decimal_digits(n).len() == 1,
    decreases n,
{
    if n >= 10 {
        decimal_digits_end(n / 10);
    }
}

/// A number in decimal.
pub fn decimal(n: u64) -> (r: String)
    ensures
        r@ == decimal_digits(n as nat),
    decreases n,
{
    let mut out = if n < 10 {
        String::new()
    } else {
        decimal(n / 10)
    };
    let digit: u8 = 48 + (n % 10) as u8;
    out.push(digit as char);
    assert(n < 10 ==> out@ =~= decimal_digits(n as nat));
    out
}

/// The text of a signed number.
pub open spec fn signed_digits(n: int) -> Seq<char> {
    if n < 0 {
        seq!['-'] + decimal_digits((-n) as nat)
    } else {
        decimal_digits(n as nat)
    }
}

/// A signed number in decimal.
pub fn signed_decimal(n: i64) -> (r: String)
    ensures
        r@ == signed_digits(n as int),
{
    if n >= 0 {
        return decimal(n as u64);
    }
    let mut out = String::new();
    out.push('-');
    let magnitude: u64 = if n == i64::MIN {
        9_223_372_036_854_775_808
    } else {
        (-n) as u64
    };
    let digits = decimal(magnitude);
    out.append(&digits);
    assert(out@ =~= seq!['-'] + decimal_digits((-(n as int)) as nat));
    out
}

/// A number by which different keys are told apart: it is made of the length of
/// the text and three of its characters.
pub open spec fn stamp(text: Seq<char>) -> int {
    text.len() + 1000 * (text[0] as int) + 1000000 * (text[text.len() - 1] as int) + 1000000000 * (
    text[text.len() as int * 3 / 4] as int)
}

/// The texts separated by `between`.
pub open spec fn joined(parts: Seq<Seq<char>>, between: Seq<char>) -> Seq<char>
    decreases parts.len(),
{
    if parts.len() == 0 {
        Seq::empty()
    } else if parts.len() == 1 {
        parts[0]
    } else {
        joined(parts.drop_last(), between) + between + parts.last()
    }
}

/// The views of a list of strings.
pub open spec fn texts(parts: Seq<String>) -> Seq<Seq<char>> {
    parts.map_values(|s: String| s@)
}

/// The texts separated by `between`.
pub fn join(parts: &Vec<String>, between: &str) -> (r: String)
    ensures
        r@ == joined(texts(parts@), between@),
{
    let mut out = String::new();
    let mut i: usize = 0;
    while i < parts.len()
        invariant
            i <= parts.len(),
            out@ == joined(texts(parts@).take(i as int), between@),
        decreases parts.len() - i,
    {
        let ghost next = texts(parts@).take(i + 1);
        assert(next.drop_last() =~= texts(parts@).take(i as int));
        assert(next.last() == parts@[i as int]@);
        if i > 0 {
            out.append(between);
        }
        out.append(&parts[i]);
        assert(i == 0 ==> out@ =~= next[0]);
        i += 1;
    }
    assert(texts(parts@).take(parts@.len() as int) =~= texts(parts@));
    out
}

/// A copy of a list of strings.
pub fn clone_texts(parts: &Vec<String>) -> (r: Vec<String>)
    ensures
        r@ == parts@,
{
    let mut out: Vec<String> = Vec::new();
    let mut i: usize = 0;
    while i < parts.len()
        invariant
            i <= parts.len(),
            out@ == parts@.take(i as int),
        decreases parts.len() - i,
    {
        out.push(parts[i].clone());
        i += 1;
        assert(out@ =~= parts@.take(i as int));
    }
    assert(parts@.take(i as int) =~= parts@);
    out
}

/// The list holds the text.
pub open spec fn holds_text(parts: Seq<String>, text: Seq<char>) -> bool {
    exists|i: int| 0 <= i < parts.len() && (#[trigger] parts[i])@ == text
}

/// Whether the list holds the text.
pub fn contains_text(parts: &Vec<String>, text: &str) -> (r: bool)
    ensures
        r == holds_text(parts@, text@),
{
    let mut i: usize = 0;
    while i < parts.len()
        invariant
            i <= parts.len(),
            forall|j: int| 0 <= j < i ==> (#[trigger] parts@[j])@ != text@,
        decreases parts.len() - i,
    {
        if same(&parts[i], text) {
            return true;
        }
        i += 1;
    }
    false
}

/// The list of texts holds the text.
pub open spec fn holds_str(parts: Seq<&'static str>, text: Seq<char>) -> bool {
    exists|i: int| 0 <= i < parts.len() && (#[trigger] parts[i])@ == text
}

/// Whether a list of constant texts holds the text.
pub fn contains_str(parts: &[&'static str], text: &str) -> (r: bool)
    ensures
        r == holds_str(parts@, text@),
{
    let mut i: usize = 0;
    while i < parts.len()
        invariant
            i <= parts.len(),
            forall|j: int| 0 <= j < i ==> (#[trigger] parts@[j])@ != text@,
        decreases parts.len() - i,
    {
        if same(parts[i], text) {
            return true;
        }
        i += 1;
    }
    false
}


/// The lines of a text: the parts between line feeds.
pub open spec fn lines(contents: Seq<char>) -> Seq<Seq<char>>
    decreases contents.len(),
{
    if contents.len() == 0 {
        seq![Seq::empty()]
    } else {
        let before = lines(contents.drop_last());
        if contents.last() == '\n' {
            before.push(Seq::empty())
        } else {
            before.drop_last().push(before.last().push(contents.last()))
        }
    }
}

/// Every text has at least one line.
pub proof fn lines_nonempty(contents: Seq<char>)
    ensures
        lines(contents).len() > 0,
    decreases contents.len(),
{
    if contents.len() > 0 {
        lines_nonempty(contents.drop_last());
    }
}

/// The lines of a text.
pub fn split_lines(contents: &str) -> (r: Vec<String>)
    ensures
        texts(r@) == lines(contents@),
{
    let chars = to_chars(contents);
    let mut out: Vec<String> = Vec::new();
    let mut line: Vec<char> = Vec::new();
    let mut i: usize = 0;
    proof {
        assert(contents@.take(0) =~= Seq::<char>::empty());
        assert(lines(Seq::<char>::empty()) =~= seq![Seq::<char>::empty()]);
        assert(lines(Seq::<char>::empty()).drop_last() =~= Seq::<Seq<char>>::empty());
        assert(line@ =~= Seq::<char>::empty());
        assert(texts(out@) =~= Seq::<Seq<char>>::empty());
    }
    while i < chars.len()
        invariant
            i <= chars.len(),
            chars@ == contents@,
            lines(contents@.take(i as int)).len() > 0,
            texts(out@) == lines(contents@.take(i as int)).drop_last(),
            line@ == lines(contents@.take(i as int)).last(),
        decreases chars.len() - i,
    {
        let ghost before = lines(contents@.take(i as int));
        assert(contents@.take(i + 1).drop_last() =~= contents@.take(i as int));
        assert(contents@.take(i + 1).last() == contents@[i as int]);
        if chars[i] == '\n' {
            let text = from_chars(&line);
            let ghost written = out@;
            out.push(text);
            line = Vec::new();
            assert(texts(out@) =~= texts(written).push(before.last()));
            assert(before.drop_last().push(before.last()) =~= before);
            assert(lines(contents@.take(i + 1)).drop_last() =~= before);
            assert(line@ =~= Seq::<char>::empty());
        } else {
            line.push(chars[i]);
            assert(lines(contents@.take(i + 1)).drop_last() =~= before.drop_last());
        }
        i += 1;
    }
    assert(contents@.take(i as int) =~= contents@);
    let text = from_chars(&line);
    let ghost written = out@;
    let ghost all = lines(contents@);
    out.push(text);
    assert(texts(out@) =~= texts(written).push(all.last()));
    assert(all.drop_last().push(all.last()) =~= all);
    out
}

/// The first text comes before the second or is equal to it, by its characters.
pub open spec fn not_after(a: Seq<char>, b: Seq<char>) -> bool
    decreases a.len(),
{
    if a.len() == 0 {
        true
    } else if b.len() == 0 {
        false
    } else if a[0] != b[0] {
        a[0] < b[0]
    } else {
        not_after(a.drop_first(), b.drop_first())
    }
}

/// Of two texts one is not after the other.
pub proof fn not_after_total(a: Seq<char>, b: Seq<char>)
    ensures
        not_after(a, b) || not_after(b, a),
    decreases a.len(),
{
    if a.len() > 0 && b.len() > 0 && a[0] == b[0] {
        not_after_total(a.drop_first(), b.drop_first());
    }
}

/// The order of texts is transitive.
pub proof fn not_after_transitive(a: Seq<char>, b: Seq<char>, c: Seq<char>)
    requires
        not_after(a, b),
        not_after(b, c),
    ensures
        not_after(a, c),
    decreases a.len(),
{
    if a.len() > 0 && a[0] == b[0] && b[0] == c[0] {
        not_after_transitive(a.drop_first(), b.drop_first(), c.drop_first());
    }
}

fn is_not_after(a: &Vec<char>, b: &Vec<char>) -> (r: bool)
    ensures
        r == not_after(a@, b@),
{
    let mut i: usize = 0;
    assert(a@.skip(0) =~= a@);
    assert(b@.skip(0) =~= b@);
    while i < a.len() && i < b.len() && a[i] == b[i]
        invariant
            i <= a.len(),
            i <= b.len(),
            not_after(a@, b@) == not_after(a@.skip(i as int), b@.skip(i as int)),
        decreases a.len() - i,
    {
        assert(a@.skip(i as int)[0] == a@[i as int]);
        assert(b@.skip(i as int)[0] == b@[i as int]);
        assert(a@.skip(i as int).drop_first() =~= a@.skip(i + 1));
        assert(b@.skip(i as int).drop_first() =~= b@.skip(i + 1));
        i += 1;
    }
    if i == a.len() {
        return true;
    }
    if i == b.len() {
        return false;
    }
    assert(a@.skip(i as int)[0] == a@[i as int]);
    assert(b@.skip(i as int)[0] == b@[i as int]);
    a[i] < b[i]
}

/// The texts are in order.
pub open spec fn in_order(parts: Seq<Seq<char>>) -> bool {
    forall|i: int, j: int|
        0 <= i < j < parts.len() ==> not_after(#[trigger] parts[i], #[trigger] parts[j])
}

/// The texts in order.
pub fn sort_texts(parts: Vec<String>) -> (r: Vec<String>)
    ensures
        in_order(texts(r@)),
        r@.to_multiset() == parts@.to_multiset(),
{
    let mut rest = parts;
    let mut out: Vec<String> = Vec::new();
    let ghost all = rest@;
    proof {
        all.to_multiset_ensures();
        out@.to_multiset_ensures();
        assert(out@ =~= Seq::<String>::empty());
        assert(out@.to_multiset().add(rest@.to_multiset()) =~= all.to_multiset());
    }
    while rest.len() > 0
        invariant
            in_order(texts(out@)),
            out@.to_multiset().add(rest@.to_multiset()) == all.to_multiset(),
        decreases rest.len(),
    {
        let ghost rest_before = rest@;
        let next = rest.pop();
        if let Some(next) = next {
            let ghost written = out@;
            proof {
                assert(rest_before =~= rest@.push(next));
                rest@.to_multiset_ensures();
            }
            let at: usize = insertion_point(&out, &next);
            out.insert(at, next);
            proof {
                written.to_multiset_ensures();
                assert(out@ == written.insert(at as int, next));
                out@.to_multiset_ensures();
                assert(out@.remove(at as int) =~= written);
                assert(out@[at as int] == next);
                assert(out@.contains(next));
                assert(out@.to_multiset() =~= written.to_multiset().insert(next));
                assert(out@.to_multiset().add(rest@.to_multiset()) =~= all.to_multiset());
                let a = texts(written);
                let b = texts(out@);
                assert forall|i: int, j: int| 0 <= i < j < b.len() implies not_after(
                    #[trigger] b[i],
                    #[trigger] b[j],
                ) by {
                    let x = if i < at {
                        i
                    } else {
                        i - 1
                    };
                    let y = if j < at {
                        j
                    } else {
                        j - 1
                    };
                    if i != at {
                        assert(b[i] == a[x]);
                    }
                    if j != at {
                        assert(b[j] == a[y]);
                    }
                    if i != at && j != at {
                        assert(not_after(a[x], a[y]));
                    }
                }
            }
        }
    }
    proof {
        rest@.to_multiset_ensures();
        assert(rest@ =~= Seq::<String>::empty());
        assert(out@.to_multiset() =~= all.to_multiset());
    }
    out
}

fn insertion_point(sorted: &Vec<String>, next: &String) -> (r: usize)
    requires
        in_order(texts(sorted@)),
    ensures
        r <= sorted.len(),
        forall|i: int| 0 <= i < r ==> not_after(#[trigger] texts(sorted@)[i], next@),
        forall|i: int| r <= i < sorted.len() ==> not_after(next@, #[trigger] texts(sorted@)[i]),
{
    let chars = to_chars(next);
    let ghost views = texts(sorted@);
    let mut at: usize = 0;
    while at < sorted.len()
        invariant
            at <= sorted.len(),
            chars@ == next@,
            views == texts(sorted@),
            in_order(views),
            forall|i: int| 0 <= i < at ==> not_after(#[trigger] views[i], next@),
        decreases sorted.len() - at,
    {
        let here = to_chars(&sorted[at]);
        assert(views[at as int] == here@);
        if !is_not_after(&here, &chars) {
            proof {
                not_after_total(here@, next@);
                assert forall|i: int| at <= i < sorted.len() implies not_after(
                    next@,
                    #[trigger] views[i],
                ) by {
                    if i > at {
                        assert(not_after(views[at as int], views[i]));
                        not_after_transitive(next@, views[at as int], views[i]);
                    }
                }
            }
            return at;
        }
        at += 1;
    }
    at
}

} // verus!

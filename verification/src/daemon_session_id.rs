//! Session ids as they are shown and typed: short, without dashes, by their end.

use vstd::prelude::*;

use crate::text;
use crate::text::{ends_with, from_chars, slice_text, starts_with, to_chars};

verus! {

/// How many characters of an id are shown.
pub const DISPLAY_ID_LENGTH: usize = 12;

/// The text without its dashes.
pub open spec fn without_dashes(id: Seq<char>) -> Seq<char>
    decreases id.len(),
{
    if id.len() == 0 {
        Seq::empty()
    } else if id.last() == '-' {
        without_dashes(id.drop_last())
    } else {
        without_dashes(id.drop_last()).push(id.last())
    }
}

/// The id in the form in which ids are compared.
pub open spec fn normalized(id: Seq<char>) -> Seq<char> {
    text::lowered(without_dashes(id))
}

/// The id in the form in which ids are compared: without dashes, in lower case.
pub fn normalize_session_id(id: &str) -> (r: String)
    ensures
        r@ == normalized(id@),
        text::no_capitals(r@),
{
    let chars = to_chars(id);
    let mut kept: Vec<char> = Vec::new();
    let mut i: usize = 0;
    assert(chars@.take(0) =~= Seq::empty());
    while i < chars.len()
        invariant
            i <= chars.len(),
            chars@ == id@,
            kept@ == without_dashes(chars@.take(i as int)),
        decreases chars.len() - i,
    {
        assert(chars@.take(i + 1).drop_last() =~= chars@.take(i as int));
        if chars[i] != '-' {
            kept.push(chars[i]);
        }
        i += 1;
    }
    assert(chars@.take(i as int) =~= chars@);
    let plain = from_chars(&kept);
    text::lower(&plain)
}

/// The character is a hexadecimal digit.
pub open spec fn is_hex_digit(c: char) -> bool {
    ('0' <= c && c <= '9') || ('a' <= c && c <= 'f') || ('A' <= c && c <= 'F')
}

/// The text is made of hexadecimal digits, at least one.
pub open spec fn is_hex(id: Seq<char>) -> bool {
    id.len() > 0 && forall|i: int| 0 <= i < id.len() ==> is_hex_digit(#[trigger] id[i])
}

/// The id in the form in which ids are compared, where it is a hexadecimal one.
pub open spec fn hex_id(id: Seq<char>) -> Option<Seq<char>> {
    if is_hex(normalized(id)) {
        Some(normalized(id))
    } else {
        None
    }
}

fn normalize_hex_session_id(id: &str) -> (r: Option<String>)
    ensures
        match r {
            Some(hex) => hex_id(id@) == Some(hex@) && text::no_capitals(hex@),
            None => hex_id(id@) is None,
        },
{
    let plain = normalize_session_id(id);
    let chars = to_chars(&plain);
    if chars.len() == 0 {
        return None;
    }
    let mut i: usize = 0;
    while i < chars.len()
        invariant
            i <= chars.len(),
            chars@ == plain@,
            plain@ == normalized(id@),
            text::no_capitals(plain@),
            forall|j: int| 0 <= j < i ==> is_hex_digit(#[trigger] plain@[j]),
        decreases chars.len() - i,
    {
        let c = chars[i];
        let hex: bool = ('0' <= c && c <= '9') || ('a' <= c && c <= 'f') || ('A' <= c && c <= 'F');
        if !hex {
            assert(!is_hex_digit(plain@[i as int]));
            return None;
        }
        i += 1;
    }
    Some(plain)
}

/// The last characters of a text, at most `length` of them.
pub open spec fn tail_of(value: Seq<char>, length: int) -> Seq<char> {
    if value.len() > length {
        value.skip(value.len() - length)
    } else {
        value
    }
}

fn tail(value: &str, length: usize) -> (r: String)
    ensures
        r@ == tail_of(value@, length as int),
{
    let chars = to_chars(value);
    if chars.len() > length {
        let r = slice_text(&chars, chars.len() - length, chars.len());
        assert(r@ =~= value@.skip(value@.len() - length));
        r
    } else {
        value.to_owned()
    }
}

/// The form in which an id is shown.
pub open spec fn display_id(id: Seq<char>) -> Seq<char> {
    match hex_id(id) {
        Some(hex) => tail_of(hex, DISPLAY_ID_LENGTH as int),
        None => tail_of(id, DISPLAY_ID_LENGTH as int),
    }
}

/// The form in which an id is shown. A hexadecimal id ends with it.
pub fn format_session_display_id(id: &str) -> (r: String)
    ensures
        r@ == display_id(id@),
        r@.len() <= DISPLAY_ID_LENGTH,
        hex_id(id@) is Some ==> is_suffix(id@, r@),
{
    match normalize_hex_session_id(id) {
        Some(hex) => {
            proof {
                shown_ids_lead_back(id@);
            }
            tail(&hex, DISPLAY_ID_LENGTH)
        },
        None => tail(id, DISPLAY_ID_LENGTH),
    }
}

/// Both ids are hexadecimal, and the one ends with the other.
pub open spec fn is_suffix(candidate: Seq<char>, suffix: Seq<char>) -> bool {
    match (hex_id(candidate), hex_id(suffix)) {
        (Some(candidate), Some(suffix)) => text::ends(candidate, suffix),
        _ => false,
    }
}

/// Whether a hexadecimal id ends with another.
pub fn matches_session_id_suffix(candidate: &str, suffix: &str) -> (r: bool)
    ensures
        r == is_suffix(candidate@, suffix@),
{
    match (normalize_hex_session_id(candidate), normalize_hex_session_id(suffix)) {
        (Some(candidate), Some(suffix)) => ends_with(&candidate, &suffix),
        _ => false,
    }
}

/// The selector means the saved session: its id begins or ends with it, where both
/// are hexadecimal; otherwise its id begins with it to the letter.
pub open spec fn selects(candidate: Seq<char>, selector: Seq<char>) -> bool {
    match (hex_id(candidate), hex_id(selector)) {
        (Some(candidate), Some(selector)) => text::begins(candidate, selector) || text::ends(
            candidate,
            selector,
        ),
        _ => text::begins(candidate, selector),
    }
}

/// Whether a selector means a saved session.
pub fn matches_saved_session_selector(candidate: &str, selector: &str) -> (r: bool)
    ensures
        r == selects(candidate@, selector@),
{
    match (normalize_hex_session_id(candidate), normalize_hex_session_id(selector)) {
        (Some(candidate), Some(selector)) => starts_with(&candidate, &selector) || ends_with(
            &candidate,
            &selector,
        ),
        _ => starts_with(candidate, selector),
    }
}

proof fn no_dashes_to_remove(id: Seq<char>)
    requires
        !id.contains('-'),
    ensures
        without_dashes(id) == id,
    decreases id.len(),
{
    if id.len() > 0 {
        assert(id[id.len() - 1] != '-');
        let fewer = id.drop_last();
        assert forall|i: int| 0 <= i < fewer.len() implies fewer[i] != '-' by {
            assert(fewer[i] == id[i]);
        }
        no_dashes_to_remove(fewer);
        assert(fewer.push(id.last()) =~= id);
    } else {
        assert(without_dashes(id) =~= id);
    }
}

/// The normal form of hexadecimal digits in lower case is the text itself.
proof fn small_hex_is_normal(id: Seq<char>)
    requires
        forall|i: int|
            0 <= i < id.len() ==> is_hex_digit(#[trigger] id[i]) && !('A' <= id[i] && id[i] <= 'Z'),
    ensures
        normalized(id) == id,
{
    assert(!id.contains('-')) by {
        assert forall|i: int| 0 <= i < id.len() implies id[i] != '-' by {
            assert(is_hex_digit(id[i]));
        }
    }
    no_dashes_to_remove(id);
    assert forall|i: int| 0 <= i < id.len() implies (#[trigger] id[i] as u32) < 128 by {
        assert(is_hex_digit(id[i]));
    }
    assert(text::lowered(id) =~= id);
}

/// The id in ASCII lower case, without its dashes.
pub open spec fn spelling(id: Seq<char>) -> Seq<char> {
    without_dashes(id).map_values(|c: char| text::ascii_lower(c))
}

/// The form in which a hexadecimal id is shown leads back to it: the id ends with
/// it. This holds of every ASCII id, and of any other whose lower case holds no
/// ASCII capital letter.
pub proof fn shown_ids_lead_back(id: Seq<char>)
    requires
        hex_id(id) is Some,
        text::all_ascii(id) || text::no_capitals(normalized(id)),
    ensures
        is_suffix(id, display_id(id)),
{
    let hex = normalized(id);
    let shown = display_id(id);
    if text::all_ascii(id) {
        ascii_ids_are_normalized(id);
    }
    assert forall|i: int|
        0 <= i < shown.len() implies is_hex_digit(#[trigger] shown[i]) && !('A' <= shown[i]
        && shown[i] <= 'Z') by {
        let skipped = hex.len() - shown.len();
        assert(shown[i] == hex[skipped + i]);
        assert(is_hex_digit(hex[skipped + i]));
        assert(!('A' <= hex[skipped + i] && hex[skipped + i] <= 'Z'));
    }
    small_hex_is_normal(shown);
    assert(shown.len() > 0);
    assert(hex_id(shown) == Some(shown));
    assert(hex.subrange(hex.len() - shown.len(), hex.len() as int) =~= shown);
}

/// The normal form of an ASCII id is its spelling: no dash is left in it, and no
/// capital letter.
pub proof fn ascii_ids_are_normalized(id: Seq<char>)
    requires
        text::all_ascii(id),
    ensures
        normalized(id) == spelling(id),
        text::all_ascii(normalized(id)),
        text::no_capitals(normalized(id)),
        !normalized(id).contains('-'),
{
    without_dashes_is_ascii(id);
    without_dashes_has_none(id);
    let plain = without_dashes(id);
    let normal = normalized(id);
    assert forall|i: int| 0 <= i < normal.len() implies (#[trigger] normal[i] as u32) < 128
        && !('A' <= normal[i] && normal[i] <= 'Z') && normal[i] != '-' by {
        assert(normal[i] == text::ascii_lower(plain[i]));
        assert((plain[i] as u32) < 128);
        assert(plain.contains(plain[i]));
        if 'A' <= plain[i] && plain[i] <= 'Z' {
            assert(normal[i] as u32 == plain[i] as u32 + 32);
        }
    }
}

/// Normalizing a normal form changes nothing. This holds of every ASCII id, and of
/// any other where lower case holds no dash and lowering it again keeps it.
pub proof fn normalizing_is_stable(id: Seq<char>)
    requires
        text::all_ascii(id) || (!normalized(id).contains('-') && text::lowered(normalized(id))
            == normalized(id)),
    ensures
        normalized(normalized(id)) == normalized(id),
        !normalized(id).contains('-'),
{
    let normal = normalized(id);
    if text::all_ascii(id) {
        ascii_ids_are_normalized(id);
        assert(text::lowered(normal) =~= normal);
    }
    no_dashes_to_remove(normal);
}

/// Ids of one spelling have one normal form: neither dashes nor the case of ASCII
/// letters count. This holds of ASCII ids, and of any two whose lower case is that
/// of their spellings.
pub proof fn spelling_decides(a: Seq<char>, b: Seq<char>)
    requires
        spelling(a) == spelling(b),
        text::all_ascii(a) || normalized(a) == text::lowered(spelling(a)),
        text::all_ascii(b) || normalized(b) == text::lowered(spelling(b)),
    ensures
        normalized(a) == normalized(b),
{
    if text::all_ascii(a) {
        lowering_a_spelling(a);
    }
    if text::all_ascii(b) {
        lowering_a_spelling(b);
    }
}

proof fn lowering_a_spelling(id: Seq<char>)
    requires
        text::all_ascii(id),
    ensures
        normalized(id) == text::lowered(spelling(id)),
{
    ascii_ids_are_normalized(id);
    assert(text::lowered(spelling(id)) =~= spelling(id));
}

/// Whatever an id ends with, as ids are compared, selects it; so does whatever it
/// begins with to the letter. Where one of the two is not hexadecimal, only the
/// latter does. What an id begins with to the letter it begins with as ids are
/// compared: this holds of every ASCII id, and of any other whose lower case begins
/// with the lower case of the selector.
pub proof fn selectors_are_literal_or_hexadecimal(candidate: Seq<char>, selector: Seq<char>)
    requires
        text::begins(candidate, selector) ==> text::all_ascii(candidate) || text::begins(
            normalized(candidate),
            normalized(selector),
        ),
    ensures
        is_suffix(candidate, selector) ==> selects(candidate, selector),
        text::begins(candidate, selector) ==> selects(candidate, selector),
        text::begins(candidate, selector) ==> text::begins(
            normalized(candidate),
            normalized(selector),
        ),
        hex_id(candidate) is None || hex_id(selector) is None ==> (selects(candidate, selector)
            <==> text::begins(candidate, selector)),
{
    if text::begins(candidate, selector) && text::all_ascii(candidate) {
        ascii_prefix_is_kept(candidate, selector);
    }
}

proof fn ascii_prefix_is_kept(id: Seq<char>, prefix: Seq<char>)
    requires
        text::begins(id, prefix),
        text::all_ascii(id),
    ensures
        text::begins(normalized(id), normalized(prefix)),
{
    assert forall|i: int| 0 <= i < prefix.len() implies (#[trigger] prefix[i] as u32) < 128 by {
        assert(prefix[i] == id[i]);
    }
    ascii_ids_are_normalized(id);
    ascii_ids_are_normalized(prefix);
    without_dashes_of_prefix(id, prefix);
    let whole = without_dashes(id);
    let part = without_dashes(prefix);
    assert(normalized(id).take(part.len() as int) =~= normalized(prefix)) by {
        assert forall|i: int| 0 <= i < part.len() implies whole[i] == #[trigger] part[i] by {
            assert(whole.take(part.len() as int)[i] == part[i]);
        }
    }
    assert(normalized(id).subrange(0, normalized(prefix).len() as int) =~= normalized(prefix));
}

proof fn without_dashes_of_prefix(id: Seq<char>, prefix: Seq<char>)
    requires
        text::begins(id, prefix),
    ensures
        without_dashes(prefix).len() <= without_dashes(id).len(),
        without_dashes(id).take(without_dashes(prefix).len() as int) == without_dashes(prefix),
    decreases id.len(),
{
    let part = without_dashes(prefix);
    if id.len() == prefix.len() {
        assert(id =~= prefix);
        assert(part.take(part.len() as int) =~= part);
    } else {
        let fewer = id.drop_last();
        assert(fewer.subrange(0, prefix.len() as int) =~= id.subrange(0, prefix.len() as int));
        without_dashes_of_prefix(fewer, prefix);
        if id.last() != '-' {
            assert(without_dashes(id).take(part.len() as int) =~= without_dashes(fewer).take(
                part.len() as int,
            ));
        }
    }
}

proof fn without_dashes_has_none(id: Seq<char>)
    ensures
        !without_dashes(id).contains('-'),
    decreases id.len(),
{
    if id.len() > 0 {
        without_dashes_has_none(id.drop_last());
        let fewer = without_dashes(id.drop_last());
        assert forall|i: int| 0 <= i < without_dashes(id).len() implies without_dashes(id)[i]
            != '-' by {
            if i < fewer.len() {
                assert(fewer.contains(fewer[i]));
            }
        }
    }
}

proof fn without_dashes_is_ascii(id: Seq<char>)
    requires
        text::all_ascii(id),
    ensures
        text::all_ascii(without_dashes(id)),
    decreases id.len(),
{
    if id.len() > 0 {
        let fewer = id.drop_last();
        assert forall|i: int| 0 <= i < fewer.len() implies (#[trigger] fewer[i] as u32) < 128 by {
            assert(fewer[i] == id[i]);
        }
        without_dashes_is_ascii(fewer);
        assert((id[id.len() - 1] as u32) < 128);
    }
}

} // verus!

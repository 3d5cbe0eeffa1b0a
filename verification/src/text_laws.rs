//! What holds of texts and of the members of documents: taking apart and putting
//! together, and the names under which a message of an assistant is written.

use vstd::prelude::*;

use crate::assistant_message;
use crate::assistant_message::{BlockV, MessageV};
use crate::daemon_worker_protocol;
use crate::digest;
use crate::json;
use crate::json::JsonV;
use crate::text;

verus! {

/// The lines of a text, put together again, are the text; no line holds an end of line.
pub proof fn lines_make_up_the_text(contents: Seq<char>)
    ensures
        text::joined(text::lines(contents), seq!['\n']) == contents,
        forall|i: int|
            0 <= i < text::lines(contents).len() ==> !(#[trigger] text::lines(
                contents,
            )[i]).contains('\n'),
        text::lines(contents).len() > 0,
    decreases contents.len(),
{
    let all = text::lines(contents);
    if contents.len() == 0 {
        assert(all =~= seq![Seq::<char>::empty()]);
        assert(all[0] =~= contents);
    } else {
        let before = text::lines(contents.drop_last());
        lines_make_up_the_text(contents.drop_last());
        if contents.last() == '\n' {
            assert(all.drop_last() =~= before);
            assert(text::joined(all, seq!['\n']) =~= contents);
            assert forall|i: int| 0 <= i < all.len() implies !(#[trigger] all[i]).contains('\n') by {
                if i < before.len() {
                    assert(all[i] == before[i]);
                }
            }
        } else {
            let grown = before.last().push(contents.last());
            assert(all.len() == before.len());
            assert(all.last() == grown);
            assert(all.drop_last() =~= before.drop_last());
            if before.len() == 1 {
                assert(before[0] == before.last());
                assert(all[0] == grown);
                assert(text::joined(all, seq!['\n']) =~= contents);
            } else {
                let head = text::joined(before.drop_last(), seq!['\n']) + seq!['\n'];
                assert(text::joined(before, seq!['\n']) == head + before.last());
                assert(text::joined(all, seq!['\n']) == head + grown);
                assert(head + grown =~= (head + before.last()).push(contents.last()));
                assert(contents =~= contents.drop_last().push(contents.last()));
            }
            assert forall|i: int| 0 <= i < all.len() implies !(#[trigger] all[i]).contains('\n') by {
                if i < before.len() - 1 {
                    assert(all[i] == before[i]);
                } else {
                    assert(!before[i].contains('\n'));
                    assert forall|k: int| 0 <= k < grown.len() implies grown[k] != '\n' by {
                        if k < before[i].len() {
                            assert(before[i][k] == grown[k]);
                        }
                    }
                }
            }
        }
    }
}

/// What is trimmed off a text are the blanks round it, all of them and nothing else.
pub proof fn only_blanks_are_trimmed(said: Seq<char>) -> (at: int)
    ensures
        ({
            let kept = text::trimmed(said);
            &&& 0 <= at <= said.len() - kept.len()
            &&& kept == said.subrange(at, at + kept.len())
            &&& forall|i: int| 0 <= i < at ==> text::is_space(#[trigger] said[i])
            &&& forall|i: int|
                at + kept.len() <= i < said.len() ==> text::is_space(#[trigger] said[i])
            &&& kept.len() > 0 ==> !text::is_space(kept[0]) && !text::is_space(kept.last())
        }),
{
    let at = blanks_round_a_text(said);
    let kept = text::trimmed(said);
    assert forall|i: int| 0 <= i < at implies text::is_space(#[trigger] said[i]) by {
        assert(blank(said[i]));
        reveal(blank);
    }
    assert forall|i: int| at + kept.len() <= i < said.len() implies text::is_space(
        #[trigger] said[i],
    ) by {
        assert(blank(said[i]));
        reveal(blank);
    }
    assert(kept.len() > 0 ==> !text::is_space(kept[0]) && !text::is_space(kept.last())) by {
        reveal(blank);
    }
    at
}

#[verifier::opaque]
spec fn blank(c: char) -> bool {
    text::is_space(c)
}

proof fn blanks_round_a_text(said: Seq<char>) -> (at: int)
    ensures
        ({
            let kept = text::trimmed(said);
            &&& 0 <= at <= said.len() - kept.len()
            &&& kept == said.subrange(at, at + kept.len())
            &&& forall|i: int| 0 <= i < at ==> blank(#[trigger] said[i])
            &&& forall|i: int|
                at + kept.len() <= i < said.len() ==> blank(#[trigger] said[i])
            &&& kept.len() > 0 ==> !blank(kept[0]) && !blank(kept.last())
        }),
    decreases said.len(),
{
    let kept = text::trimmed(said);
    if said.len() > 0 {
        assert(blank(said[0]) == text::is_space(said[0])) by {
            reveal(blank);
        }
        assert(blank(said.last()) == text::is_space(said.last())) by {
            reveal(blank);
        }
    }
    if said.len() == 0 {
        assert(kept =~= said.subrange(0, 0));
        0
    } else if blank(said[0]) {
        let rest = said.drop_first();
        let at = blanks_round_a_text(rest);
        assert(kept =~= said.subrange(at + 1, at + 1 + kept.len()));
        assert forall|i: int| 0 <= i < at + 1 implies blank(#[trigger] said[i]) by {
            if i > 0 {
                assert(rest[i - 1] == said[i]);
            }
        }
        assert forall|i: int| at + 1 + kept.len() <= i < said.len() implies blank(
            #[trigger] said[i],
        ) by {
            assert(rest[i - 1] == said[i]);
        }
        at + 1
    } else if blank(said.last()) {
        let rest = said.drop_last();
        let at = blanks_round_a_text(rest);
        assert(kept =~= said.subrange(at, at + kept.len()));
        assert forall|i: int| 0 <= i < at implies blank(#[trigger] said[i]) by {
            assert(rest[i] == said[i]);
        }
        assert forall|i: int| at + kept.len() <= i < said.len() implies blank(
            #[trigger] said[i],
        ) by {
            if i < rest.len() {
                assert(rest[i] == said[i]);
            }
        }
        at
    } else {
        assert(kept =~= said.subrange(0, said.len() as int));
        0
    }
}

/// A blank, a tab and an end of line are blanks; letters, digits and signs are none.
pub proof fn blanks_are_blank(c: char)
    ensures
        text::is_space(' ') && text::is_space('\t') && text::is_space('\n') && text::is_space('\r'),
        0x21 <= c as u32 <= 0x7e ==> !text::is_space(c),
{
}

/// A number is written in decimal: its digits give the number again, without leading
/// zeros.
pub proof fn numbers_are_written_in_decimal(n: nat)
    ensures
        daemon_worker_protocol::all_digits(text::decimal_digits(n)),
        daemon_worker_protocol::digits_value(text::decimal_digits(n)) == n,
        n > 0 ==> text::decimal_digits(n)[0] != '0',
        text::signed_digits(n as int) == text::decimal_digits(n),
        n > 0 ==> text::signed_digits(-(n as int)) == seq!['-'] + text::decimal_digits(n),
    decreases n,
{
    let digits = text::decimal_digits(n);
    if n < 10 {
        assert(digits.drop_last() =~= Seq::<char>::empty());
        assert(daemon_worker_protocol::digits_value(digits.drop_last()) == 0);
    } else {
        let before = text::decimal_digits(n / 10);
        numbers_are_written_in_decimal(n / 10);
        assert(digits.drop_last() =~= before);
        assert(digits.last() as u32 == 48 + n % 10);
        assert forall|i: int| 0 <= i < digits.len() implies '0' <= #[trigger] digits[i] <= '9' by {
            if i < before.len() {
                assert(before[i] == digits[i]);
            }
        }
        assert(digits[0] == before[0]);
    }
}

/// Bytes are written as two hex digits each, the higher half first.
pub proof fn bytes_are_written_in_hex(bytes: Seq<u8>, i: int)
    requires
        0 <= i < bytes.len(),
    ensures
        digest::hex_text(bytes).len() == 2 * bytes.len(),
        digest::hex_text(bytes)[2 * i] == digest::hex_digit(bytes[i] as int / 16),
        digest::hex_text(bytes)[2 * i + 1] == digest::hex_digit(bytes[i] as int % 16),
    decreases bytes.len(),
{
    let fewer = bytes.drop_last();
    if i < fewer.len() {
        bytes_are_written_in_hex(fewer, i);
    } else if fewer.len() > 0 {
        bytes_are_written_in_hex(fewer, 0);
    } else {
        assert(digest::hex_text(fewer).len() == 0);
    }
}

/// A hex digit stands for its number: the ten digits and the first six small letters.
pub proof fn hex_digits_stand_for_numbers(n: int)
    requires
        0 <= n < 16,
    ensures
        n < 10 ==> digest::hex_digit(n) as int == '0' as int + n,
        n >= 10 ==> digest::hex_digit(n) as int == 'a' as int + n - 10,
{
}

/// A digest that is cut short is the beginning of the whole one.
pub proof fn digests_are_cut_from_the_front(value: Seq<char>, n: nat)
    requires
        n <= digest::hex_text(digest::sha256(vstd::utf8::encode_utf8(value))).len(),
    ensures
        digest::digest_prefix(value, n).len() == n,
        text::begins(
            digest::hex_text(digest::sha256(vstd::utf8::encode_utf8(value))),
            digest::digest_prefix(value, n),
        ),
{
    let whole = digest::hex_text(digest::sha256(vstd::utf8::encode_utf8(value)));
    assert(whole.subrange(0, n as int) =~= whole.take(n as int));
}

/// Capital letters become small ones, and nothing else changes.
pub proof fn capitals_become_small(c: char)
    ensures
        'A' <= c <= 'Z' ==> text::ascii_lower(c) as int == c as int + ('a' as int - 'A' as int)
            && 'a' <= text::ascii_lower(c) <= 'z',
        !('A' <= c <= 'Z') ==> text::ascii_lower(c) == c,
{
}

/// Parts are joined with what stands between them, in order.
pub proof fn parts_are_joined_in_order(
    parts: Seq<Seq<char>>,
    part: Seq<char>,
    between: Seq<char>,
)
    ensures
        text::joined(Seq::empty(), between).len() == 0,
        text::joined(seq![part], between) == part,
        parts.len() > 0 ==> text::joined(parts.push(part), between) == text::joined(parts, between)
            + between + part,
{
    assert(parts.push(part).drop_last() =~= parts);
}

/// Texts are ordered as in a dictionary: of two that begin alike the shorter comes first,
/// otherwise the first character that differs decides. Two texts that are not after each
/// other are the same.
pub proof fn texts_are_ordered(a: Seq<char>, b: Seq<char>, i: int)
    requires
        0 <= i <= a.len(),
        0 <= i <= b.len(),
        a.take(i) == b.take(i),
    ensures
        i == a.len() ==> text::not_after(a, b),
        i == b.len() && a.len() > i ==> !text::not_after(a, b),
        i < a.len() && i < b.len() && a[i] < b[i] ==> text::not_after(a, b),
        i < a.len() && i < b.len() && a[i] > b[i] ==> !text::not_after(a, b),
    decreases i,
{
    if i > 0 {
        assert(a.take(i)[0] == a[0] && b.take(i)[0] == b[0]);
        let c = a.drop_first();
        let d = b.drop_first();
        assert(c.take(i - 1) =~= d.take(i - 1)) by {
            assert forall|k: int| 0 <= k < i - 1 implies c[k] == d[k] by {
                assert(a.take(i)[k + 1] == a[k + 1]);
                assert(b.take(i)[k + 1] == b[k + 1]);
            }
        }
        texts_are_ordered(c, d, i - 1);
        if i < a.len() {
            assert(c[i - 1] == a[i]);
        }
        if i < b.len() {
            assert(d[i - 1] == b[i]);
        }
    }
}

/// A member that is taken out is gone, where no name stands twice; the others stay.
pub proof fn removed_members_are_gone(
    pairs: Seq<(Seq<char>, JsonV)>,
    key: Seq<char>,
    other: Seq<char>,
)
    ensures
        json::distinct_keys(pairs) ==> json::lookup(json::without(pairs, key), key) is None,
        other != key ==> json::lookup(json::without(pairs, key), other) == json::lookup(
            pairs,
            other,
        ),
    decreases pairs.len(),
{
    if pairs.len() > 0 {
        let rest = pairs.drop_first();
        removed_members_are_gone(rest, key, other);
        if json::distinct_keys(pairs) {
            assert(json::distinct_keys(rest)) by {
                assert forall|i: int, j: int| 0 <= i < j < rest.len() implies rest[i].0
                    != rest[j].0 by {
                    assert(pairs[i + 1].0 != pairs[j + 1].0);
                }
            }
        }
        if pairs[0].0 == key {
            if json::distinct_keys(pairs) {
                never_found(rest, key);
            }
        } else {
            let after = json::without(pairs, key);
            assert(after[0] == pairs[0]);
            assert(after.drop_first() =~= json::without(rest, key));
        }
    }
}

proof fn never_found(pairs: Seq<(Seq<char>, JsonV)>, key: Seq<char>)
    requires
        forall|i: int| 0 <= i < pairs.len() ==> (#[trigger] pairs[i]).0 != key,
    ensures
        json::lookup(pairs, key) is None,
    decreases pairs.len(),
{
    if pairs.len() > 0 {
        let rest = pairs.drop_first();
        assert forall|i: int| 0 <= i < rest.len() implies (#[trigger] rest[i]).0 != key by {
            assert(rest[i] == pairs[i + 1]);
        }
        never_found(rest, key);
    }
}

/// Fields that come in a list are taken by their place, where there are enough of them
/// and not too many; a document is taken as it is.
pub proof fn fields_are_taken_by_their_place(
    fields: Seq<JsonV>,
    names: Seq<Seq<char>>,
    needed: nat,
    i: int,
    value: JsonV,
)
    requires
        0 <= i < fields.len(),
        needed <= fields.len() <= names.len(),
        forall|j: int, k: int| 0 <= j < k < names.len() ==> #[trigger] names[j] != #[trigger] names[k],
    ensures
        json::by_name(JsonV::Arr(fields), names, needed).get(names[i]) == Some(fields[i]),
        !(value is Arr) ==> json::by_name(value, names, needed) == value,
{
    let pairs = Seq::new(fields.len(), |j: int| (names[j], fields[j]));
    found_at(pairs, i);
}

proof fn found_at(pairs: Seq<(Seq<char>, JsonV)>, i: int)
    requires
        0 <= i < pairs.len(),
        forall|j: int, k: int|
            0 <= j < k < pairs.len() ==> (#[trigger] pairs[j]).0 != (#[trigger] pairs[k]).0,
    ensures
        json::lookup(pairs, pairs[i].0) == Some(pairs[i].1),
    decreases pairs.len(),
{
    if i > 0 {
        let rest = pairs.drop_first();
        assert(pairs[0].0 != pairs[i].0);
        assert(rest[i - 1] == pairs[i]);
        assert forall|j: int, k: int| 0 <= j < k < rest.len() implies (#[trigger] rest[j]).0 != (
        #[trigger] rest[k]).0 by {
            assert(rest[j] == pairs[j + 1] && rest[k] == pairs[k + 1]);
        }
        found_at(rest, i - 1);
    }
}

proof fn message_members()
    ensures
        text::stamp("role"@) == 101101114004,
        text::stamp("content"@) == 110116099007,
        text::stamp("api"@) == 105105097003,
        text::stamp("provider"@) == 101114112008,
        text::stamp("model"@) == 101108109005,
        text::stamp("responseModel"@) == 111108114013,
        text::stamp("responseId"@) == 101100114010,
        text::stamp("diagnostics"@) == 105115100011,
        text::stamp("usage"@) == 103101117005,
        text::stamp("stopReason"@) == 115110115010,
        text::stamp("stopReasonRaw"@) == 110119115013,
        text::stamp("errorMessage"@) == 97101101012,
        text::stamp("timestamp"@) == 97112116009,
        text::stamp("type"@) == 101101116004,
        text::stamp("text"@) == 116116116004,
        text::stamp("textSignature"@) == 116101116013,
        text::stamp("thinking"@) == 110103116008,
        text::stamp("thinkingSignature"@) == 97101116017,
        text::stamp("redacted"@) == 101100114008,
        text::stamp("id"@) == 100100105002,
        text::stamp("name"@) == 101101110004,
        text::stamp("arguments"@) == 110115097009,
        text::stamp("thoughtSignature"@) == 116101116016,
        text::stamp("toolCall"@) == 108108116008,
{
    reveal_strlit("role");
    reveal_strlit("content");
    reveal_strlit("api");
    reveal_strlit("provider");
    reveal_strlit("model");
    reveal_strlit("responseModel");
    reveal_strlit("responseId");
    reveal_strlit("diagnostics");
    reveal_strlit("usage");
    reveal_strlit("stopReason");
    reveal_strlit("stopReasonRaw");
    reveal_strlit("errorMessage");
    reveal_strlit("timestamp");
    reveal_strlit("type");
    reveal_strlit("text");
    reveal_strlit("textSignature");
    reveal_strlit("thinking");
    reveal_strlit("thinkingSignature");
    reveal_strlit("redacted");
    reveal_strlit("id");
    reveal_strlit("name");
    reveal_strlit("arguments");
    reveal_strlit("thoughtSignature");
    reveal_strlit("toolCall");
}

/// A message names each of its members.
pub proof fn messages_name_their_members(message: MessageV)
    ensures
        ({
            let value = assistant_message::message_value(message);
            &&& value.str_at("role"@) == Some(message.role)
            &&& value.get("content"@) == Some(assistant_message::content_value(message.content))
            &&& value.str_at("api"@) == Some(message.api)
            &&& value.str_at("provider"@) == Some(message.provider)
            &&& value.str_at("model"@) == Some(message.model)
            &&& value.str_at("responseModel"@) == message.response_model
            &&& value.str_at("responseId"@) == message.response_id
            &&& value.get("diagnostics"@) == message.diagnostics
            &&& value.get("usage"@) == Some(message.usage)
            &&& value.str_at("stopReason"@) == Some(message.stop_reason)
            &&& value.str_at("stopReasonRaw"@) == message.stop_reason_raw
            &&& value.str_at("errorMessage"@) == message.error_message
            &&& value.get("timestamp"@) == Some(json::int_value(message.timestamp as int))
        }),
{
    broadcast use {json::lookup_push, json::lookup_empty};

    message_members();
}

/// A block of a message says what it is and what it holds.
pub proof fn blocks_say_what_they_hold(block: BlockV)
    ensures
        ({
            let value = assistant_message::block_value(block);
            match block {
                BlockV::Text { type_, text, signature } => value.str_at("type"@) == Some(type_)
                    && value.str_at("text"@) == Some(text) && value.str_at("textSignature"@)
                    == signature,
                BlockV::Thinking { type_, thinking, signature, redacted } => value.str_at("type"@)
                    == Some(type_) && value.str_at("thinking"@) == Some(thinking) && value.str_at(
                    "thinkingSignature"@,
                ) == signature && value.bool_at("redacted"@) == redacted,
                BlockV::ToolCall(call) => value.str_at("type"@) == Some(call.type_)
                    && value.str_at("id"@) == Some(call.id) && value.str_at("name"@) == Some(
                    call.name,
                ) && value.get("arguments"@) == Some(JsonV::Obj(call.arguments)) && value.str_at(
                    "thoughtSignature"@,
                ) == call.thought_signature,
            }
        }),
        assistant_message::well_typed(block) ==> assistant_message::block_value(block).str_at(
            "type"@,
        ) == Some(
            match block {
                BlockV::Text { .. } => "text"@,
                BlockV::Thinking { .. } => "thinking"@,
                BlockV::ToolCall(_) => "toolCall"@,
            },
        ),
{
    broadcast use {json::lookup_push, json::lookup_empty};

    message_members();
}

} // verus!

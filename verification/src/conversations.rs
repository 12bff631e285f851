//! Conversation identifiers, titles, timestamps and the list view.

use vstd::prelude::*;

verus! {

use vstd::string::{StrSliceExecFns, StringExecFns};
use crate::models::{Conversation, ConversationMetadata, Message};
use crate::strings::{trim_of, trim_str};

/// The character is alphanumeric in the Unicode sense.
pub uninterp spec fn is_alphanumeric_of(c: char) -> bool;

/// Relies on char::is_alphanumeric: Unicode Alphabetic or Number, a function
/// of the character alone.
#[verifier::external_body]
fn char_is_alphanumeric(c: char) -> (r: bool)
    ensures
        r == is_alphanumeric_of(c),
{
    c.is_alphanumeric()
}

/// The Unix second count rendered as an ISO-8601 UTC timestamp.
pub uninterp spec fn iso_utc_of(secs: int) -> Seq<char>;

/// Relies on chrono::DateTime::from_timestamp and DateTime::format: the
/// seconds since the Unix epoch rendered as `YYYY-MM-DDTHH:MM:SSZ` in UTC, a
/// function of the seconds alone; a count outside chrono's range yields the
/// empty string.
#[verifier::external_body]
fn chrono_iso_utc(secs: i64) -> (r: String)
    ensures
        r@ == iso_utc_of(secs as int),
{
    match chrono::DateTime::from_timestamp(secs, 0) {
        Some(dt) => dt.format("%Y-%m-%dT%H:%M:%SZ").to_string(),
        None => String::new(),
    }
}

/// The ISO-8601 UTC rendering of a Unix second count.
pub fn format_iso_utc(secs: i64) -> (r: String)
    ensures
        r@ == iso_utc_of(secs as int),
{
    chrono_iso_utc(secs)
}

/// Relies on std::time::SystemTime::now and duration_since: nanoseconds
/// since the Unix epoch, or zero on a clock before the epoch.
#[verifier::external_body]
fn now_unix_nanos() -> (r: u128) {
    match std::time::SystemTime::now().duration_since(std::time::UNIX_EPOCH) {
        Ok(d) => d.as_nanos(),
        Err(_) => 0,
    }
}

/// The current time as an ISO-8601 UTC timestamp.
pub fn get_iso_timestamp() -> (r: String)
    ensures
        exists|t: int| r@ == iso_utc_of(t),
{
    let nanos = now_unix_nanos();
    let secs_u: u128 = nanos / 1000000000;
    let secs: i64 = if secs_u > 0x7fffffffffffffff {
        0x7fffffffffffffff
    } else {
        secs_u as i64
    };
    chrono_iso_utc(secs)
}

/// A character a conversation id may hold: alphanumeric, `-` or `_`. The
/// restriction keeps ids safe as file names.
pub open spec fn valid_id_char(c: char) -> bool {
    is_alphanumeric_of(c) || c == '-' || c == '_'
}

/// Validate a conversation id: non-empty, and alphanumeric with `-` and `_`
/// only, which rules out path traversal.
pub fn validate_conversation_id(id: &str) -> (r: Result<(), String>)
    ensures
        id@.len() == 0 ==> (r matches Err(m) && m@ == "Conversation ID cannot be empty"@),
        id@.len() > 0 ==> (r is Ok <==> forall|i: int| 0 <= i < id@.len() ==> valid_id_char(id@[i])),
        (id@.len() > 0 && !(forall|i: int| 0 <= i < id@.len() ==> valid_id_char(id@[i])) ==> (
        r matches Err(m) && m@ == "Invalid conversation ID: contains invalid characters"@)),
{
    let n = id.unicode_len();
    if n == 0 {
        return Result::Err(String::from_str("Conversation ID cannot be empty"));
    }
    let mut i: usize = 0;
    while i < n
        invariant
            n == id@.len(),
            i <= n,
            forall|j: int| 0 <= j < i ==> valid_id_char(id@[j]),
        decreases n - i,
    {
        let c = id.get_char(i);
        if !(char_is_alphanumeric(c) || c == '-' || c == '_') {
            return Result::Err(
                String::from_str("Invalid conversation ID: contains invalid characters"),
            );
        }
        i += 1;
    }
    Result::Ok(())
}

/// The decimal digit `d` as a character.
pub open spec fn digit_char(d: int) -> char {
    if d == 0 {
        '0'
    } else if d == 1 {
        '1'
    } else if d == 2 {
        '2'
    } else if d == 3 {
        '3'
    } else if d == 4 {
        '4'
    } else if d == 5 {
        '5'
    } else if d == 6 {
        '6'
    } else if d == 7 {
        '7'
    } else if d == 8 {
        '8'
    } else {
        '9'
    }
}

/// The decimal rendering of a non-negative number.
pub open spec fn spec_decimal(n: int) -> Seq<char>
    decreases n,
{
    if n < 10 {
        seq![digit_char(n)]
    } else {
        spec_decimal(n / 10) + seq![digit_char(n % 10)]
    }
}

fn digit_str(d: u8) -> (r: &'static str)
    requires
        d < 10,
    ensures
        r@ == seq![digit_char(d as int)],
{
    proof {
        reveal_strlit("0");
        reveal_strlit("1");
        reveal_strlit("2");
        reveal_strlit("3");
        reveal_strlit("4");
        reveal_strlit("5");
        reveal_strlit("6");
        reveal_strlit("7");
        reveal_strlit("8");
        reveal_strlit("9");
        assert("0"@ =~= seq![digit_char(0)]);
        assert("1"@ =~= seq![digit_char(1)]);
        assert("2"@ =~= seq![digit_char(2)]);
        assert("3"@ =~= seq![digit_char(3)]);
        assert("4"@ =~= seq![digit_char(4)]);
        assert("5"@ =~= seq![digit_char(5)]);
        assert("6"@ =~= seq![digit_char(6)]);
        assert("7"@ =~= seq![digit_char(7)]);
        assert("8"@ =~= seq![digit_char(8)]);
        assert("9"@ =~= seq![digit_char(9)]);
    }
    match d {
        0 => "0",
        1 => "1",
        2 => "2",
        3 => "3",
        4 => "4",
        5 => "5",
        6 => "6",
        7 => "7",
        8 => "8",
        _ => "9",
    }
}

fn push_decimal(s: &mut String, n: u128)
    ensures
        final(s)@ == old(s)@ + spec_decimal(n as int),
    decreases n,
{
    if n < 10 {
        s.append(digit_str(n as u8));
        proof {
            assert(old(s)@ + seq![digit_char(n as int)] =~= final(s)@);
        }
    } else {
        let q = n / 10;
        let d = (n % 10) as u8;
        push_decimal(s, q);
        s.append(digit_str(d));
        proof {
            assert(spec_decimal(n as int) == spec_decimal(n as int / 10) + seq![
                digit_char(n as int % 10),
            ]);
            assert((old(s)@ + spec_decimal(n as int / 10)) + seq![digit_char(n as int % 10)]
                =~= old(s)@ + spec_decimal(n as int));
        }
    }
}

/// The decimal rendering of `n`.
pub fn u128_decimal(n: u128) -> (r: String)
    ensures
        r@ == spec_decimal(n as int),
{
    let mut s = String::new();
    push_decimal(&mut s, n);
    proof {
        assert(Seq::<char>::empty() + spec_decimal(n as int) =~= spec_decimal(n as int));
    }
    s
}

/// The conversation id minted for a nanosecond count: `conv-` and the count
/// in decimal.
pub fn conversation_id_from_nanos(nanos: u128) -> (r: String)
    ensures
        r@ == "conv-"@ + spec_decimal(nanos as int),
{
    String::from_str("conv-").concat(u128_decimal(nanos).as_str())
}

/// A fresh conversation id from the clock's nanosecond count.
pub fn generate_conversation_id() -> (r: String)
    ensures
        exists|n: int| 0 <= n && r@ == "conv-"@ + spec_decimal(n),
{
    let nanos = now_unix_nanos();
    conversation_id_from_nanos(nanos)
}

/// The conversation title made from the first message: trimmed, and
/// truncated to 50 characters with an ellipsis when longer.
pub fn generate_title_from_message(message: &str) -> (r: String)
    ensures
        trim_of(message@).len() > 50 ==> r@ == trim_of(message@).subrange(0, 50) + "..."@,
        trim_of(message@).len() <= 50 ==> r@ == trim_of(message@),
{
    let trimmed = trim_str(message);
    let n = trimmed.as_str().unicode_len();
    if n > 50 {
        trimmed.as_str().substring_char(0, 50).to_owned().concat("...")
    } else {
        trimmed
    }
}

/// The document of a fresh conversation: one complete user message, and
/// both timestamps set to the creation time.
pub fn new_conversation(id: String, title: String, timestamp: String, user_message: String) -> (r:
    Conversation)
    ensures
        r.id == id,
        r.title == title,
        r.created_at == timestamp,
        r.updated_at == timestamp,
        r.messages@.len() == 1,
        r.messages@[0].role@ == "user"@,
        r.messages@[0].content == user_message,
        r.messages@[0].timestamp == timestamp,
        r.messages@[0].complete == true,
        crate::models::conversation_wf(r),
{
    let first_message = Message {
        role: String::from_str("user"),
        content: user_message,
        timestamp: timestamp.clone(),
        complete: true,
    };
    Conversation {
        id,
        title,
        created_at: timestamp.clone(),
        updated_at: timestamp,
        messages: vec![first_message],
    }
}

/// The list-view preview of a message content: truncated to 100 characters
/// with an ellipsis when longer.
pub open spec fn spec_preview(c: Seq<char>) -> Seq<char> {
    if c.len() > 100 {
        c.subrange(0, 100) + "..."@
    } else {
        c
    }
}

/// `m` is the list-view summary of `c`.
pub open spec fn metadata_matches(c: Conversation, m: ConversationMetadata) -> bool {
    &&& m.id == c.id
    &&& m.title == c.title
    &&& m.timestamp == c.updated_at
    &&& m.message_count == c.messages@.len()
    &&& (c.messages@.len() == 0 ==> m.last_message@ == Seq::<char>::empty())
    &&& (c.messages@.len() > 0 ==> m.last_message@ == spec_preview(c.messages@.last().content@))
}

/// The list-view summary of one conversation.
pub fn conversation_metadata(conv: &Conversation) -> (r: ConversationMetadata)
    ensures
        metadata_matches(*conv, r),
{
    let last_message: String = if conv.messages.len() == 0 {
        String::new()
    } else {
        let content = &conv.messages[conv.messages.len() - 1].content;
        let n = content.as_str().unicode_len();
        if n > 100 {
            content.as_str().substring_char(0, 100).to_owned().concat("...")
        } else {
            content.clone()
        }
    };
    ConversationMetadata {
        id: conv.id.clone(),
        title: conv.title.clone(),
        last_message,
        timestamp: conv.updated_at.clone(),
        message_count: conv.messages.len(),
    }
}

/// The list-view summaries of a conversation list, in order.
pub fn conversation_history(convs: &Vec<Conversation>) -> (r: Vec<ConversationMetadata>)
    ensures
        r@.len() == convs@.len(),
        forall|i: int| 0 <= i < convs@.len() ==> metadata_matches(convs@[i], #[trigger] r@[i]),
{
    let mut out: Vec<ConversationMetadata> = Vec::new();
    let mut i: usize = 0;
    while i < convs.len()
        invariant
            i <= convs@.len(),
            out@.len() == i,
            forall|j: int| 0 <= j < i ==> metadata_matches(convs@[j], #[trigger] out@[j]),
        decreases convs@.len() - i,
    {
        out.push(conversation_metadata(&convs[i]));
        i += 1;
    }
    out
}

/// Character-wise lexicographic order on sequences.
pub open spec fn lex_le(a: Seq<char>, b: Seq<char>) -> bool
    decreases a.len(),
{
    if a.len() == 0 {
        true
    } else if b.len() == 0 {
        false
    } else if a[0] != b[0] {
        (a[0] as int) < (b[0] as int)
    } else {
        lex_le(a.drop_first(), b.drop_first())
    }
}

pub proof fn lemma_lex_le_total(a: Seq<char>, b: Seq<char>)
    ensures
        lex_le(a, b) || lex_le(b, a),
    decreases a.len(),
{
    if a.len() > 0 && b.len() > 0 {
        if a[0] == b[0] {
            lemma_lex_le_total(a.drop_first(), b.drop_first());
        } else {
            assert((a[0] as int) != (b[0] as int));
        }
    }
}

pub proof fn lemma_lex_le_trans(a: Seq<char>, b: Seq<char>, c: Seq<char>)
    requires
        lex_le(a, b),
        lex_le(b, c),
    ensures
        lex_le(a, c),
    decreases a.len(),
{
    if a.len() > 0 && b.len() > 0 && c.len() > 0 && a[0] == b[0] && b[0] == c[0] {
        lemma_lex_le_trans(a.drop_first(), b.drop_first(), c.drop_first());
    }
}

proof fn lemma_lex_le_skip(a: Seq<char>, b: Seq<char>, i: int)
    requires
        0 <= i <= a.len(),
        i <= b.len(),
        forall|j: int| 0 <= j < i ==> a[j] == b[j],
    ensures
        lex_le(a, b) == lex_le(a.skip(i), b.skip(i)),
    decreases i,
{
    if i > 0 {
        assert(a.len() > 0 && b.len() > 0 && a[0] == b[0]);
        lemma_lex_le_skip(a.drop_first(), b.drop_first(), i - 1);
        assert(a.drop_first().skip(i - 1) =~= a.skip(i));
        assert(b.drop_first().skip(i - 1) =~= b.skip(i));
    } else {
        assert(a.skip(0) =~= a);
        assert(b.skip(0) =~= b);
    }
}

/// Lexicographic comparison of two strings, character by character.
pub fn str_le(a: &str, b: &str) -> (r: bool)
    ensures
        r == lex_le(a@, b@),
{
    let a_len = a.unicode_len();
    let b_len = b.unicode_len();
    let min: usize = if a_len < b_len {
        a_len
    } else {
        b_len
    };
    let mut i: usize = 0;
    while i < min
        invariant
            a_len == a@.len(),
            b_len == b@.len(),
            min == if a_len < b_len {
                a_len
            } else {
                b_len
            },
            i <= min,
            forall|j: int| 0 <= j < i ==> a@[j] == b@[j],
        decreases min - i,
    {
        let ca = a.get_char(i);
        let cb = b.get_char(i);
        if ca != cb {
            proof {
                lemma_lex_le_skip(a@, b@, i as int);
            }
            return (ca as u32) < (cb as u32);
        }
        i += 1;
    }
    proof {
        lemma_lex_le_skip(a@, b@, min as int);
    }
    a_len <= b_len
}

/// Sorted most-recent first: later entries never have a larger
/// modification time.
pub open spec fn sorted_by_updated_desc(s: Seq<Conversation>) -> bool {
    forall|i: int, j: int|
        0 <= i < j < s.len() ==> lex_le(
            (#[trigger] s[j]).updated_at@,
            (#[trigger] s[i]).updated_at@,
        )
}

/// Sort a conversation list most-recently-updated first. The result holds
/// exactly the conversations given.
pub fn sort_conversations_desc(items: Vec<Conversation>) -> (r: Vec<Conversation>)
    ensures
        r@.to_multiset() == items@.to_multiset(),
        sorted_by_updated_desc(r@),
{
    broadcast use vstd::seq_lib::group_to_multiset_ensures;
    broadcast use vstd::multiset::group_multiset_axioms;
    broadcast use vstd::multiset::group_multiset_properties;

    let mut rest = items;
    let mut out: Vec<Conversation> = Vec::new();
    while rest.len() > 0
        invariant
            sorted_by_updated_desc(out@),
            out@.to_multiset().add(rest@.to_multiset()) == items@.to_multiset(),
        decreases rest@.len(),
    {
        let ghost rest_pre = rest@;
        let x = match rest.pop() {
            Option::Some(x) => x,
            Option::None => {
                proof {
                    assert(false);
                }
                unreached()
            },
        };
        proof {
            assert(rest_pre[rest_pre.len() - 1] == x);
            assert(rest@ =~= rest_pre.remove(rest_pre.len() - 1));
            vstd::seq_lib::to_multiset_remove(rest_pre, rest_pre.len() - 1);
            vstd::seq_lib::to_multiset_contains(rest_pre, x);
            assert(rest_pre.contains(x));
            assert(rest_pre.to_multiset().count(x) > 0);
            assert(rest_pre.to_multiset() =~= rest@.to_multiset().insert(x));
        }
        // first position whose entry is no newer than `x`
        let mut k: usize = 0;
        while k < out.len() && !str_le(out[k].updated_at.as_str(), x.updated_at.as_str())
            invariant
                k <= out@.len(),
                forall|j: int|
                    0 <= j < k ==> !lex_le((#[trigger] out@[j]).updated_at@, x.updated_at@),
            decreases out@.len() - k,
        {
            k += 1;
        }
        let ghost out_pre = out@;
        let ghost kk = k as int;
        out.insert(k, x);
        proof {
            assert(out@ =~= out_pre.insert(kk, x));
            vstd::seq_lib::to_multiset_insert(out_pre, kk, x);
            assert(out@.to_multiset().add(rest@.to_multiset()) =~= items@.to_multiset());
            assert forall|i: int, j: int| 0 <= i < j < out@.len() implies lex_le(
                (#[trigger] out@[j]).updated_at@,
                (#[trigger] out@[i]).updated_at@,
            ) by {
                if i < kk && j == kk {
                    lemma_lex_le_total(out_pre[i].updated_at@, x.updated_at@);
                } else if i == kk && j > kk {
                    if kk < out_pre.len() {
                        if j - 1 == kk {
                            lemma_lex_le_total(out_pre[kk].updated_at@, out_pre[kk].updated_at@);
                        }
                        lemma_lex_le_trans(
                            out_pre[j - 1].updated_at@,
                            out_pre[kk].updated_at@,
                            x.updated_at@,
                        );
                    }
                }
            }
        }
    }
    proof {
        assert(out@.to_multiset().add(rest@.to_multiset()) =~= out@.to_multiset());
    }
    out
}

} // verus!

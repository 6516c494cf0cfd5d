//! Comments of an issue, and how their creation order is restored.
//!
//! The remote store hands comments out as an unordered mapping that is keyed
//! by the object identifier of each comment, a decimal number that grows with
//! every object the store creates. Sorting by that number gives the order in
//! which the comments were written.

use vstd::prelude::*;
use vstd::string::StringExecFns;

verus! {

/// A comment that is not yet bound to an issue handle.
#[derive(Debug, Clone)]
pub struct UnboundComment {
    pub id: String,
    pub author: String,
    pub text: String,
}

/// Why a text is not an object identifier.
#[derive(Debug, Clone, Copy, PartialEq, Eq, Structural)]
pub enum IdFault {
    /// The text is empty.
    Empty,
    /// The text holds something other than decimal digits after an optional
    /// leading plus sign, or nothing but the sign.
    InvalidDigit,
    /// The number does not fit in 128 bits.
    TooLarge,
}

/// An object identifier that is not a number.
#[derive(Debug, Clone, PartialEq, Eq)]
pub struct IDParsingError {
    pub msg: String,
}

/// Whether the character is one of the ten decimal digits.
pub open spec fn is_digit(c: char) -> bool {
    '0' <= c <= '9'
}

/// The number that a decimal digit stands for.
pub open spec fn digit_value(c: char) -> nat {
    (c as int - '0' as int) as nat
}

/// The number that a string of decimal digits writes.
pub open spec fn decimal_value(digits: Seq<char>) -> nat
    decreases digits.len(),
{
    if digits.len() == 0 {
        0
    } else {
        decimal_value(digits.drop_last()) * 10 + digit_value(digits.last())
    }
}

/// Whether every character of the text is a decimal digit.
pub open spec fn all_digits(text: Seq<char>) -> bool {
    forall|i: int| 0 <= i < text.len() ==> is_digit(#[trigger] text[i])
}

/// Reads digits from left to right, with `value` read so far. The first
/// character that is no digit ends the reading, and so does the first digit
/// that takes the number beyond 128 bits.
pub open spec fn read_digits(digits: Seq<char>, value: nat) -> Result<u128, IdFault>
    decreases digits.len(),
{
    if digits.len() == 0 {
        Ok(value as u128)
    } else if !is_digit(digits[0]) {
        Err(IdFault::InvalidDigit)
    } else if value * 10 + digit_value(digits[0]) > u128::MAX {
        Err(IdFault::TooLarge)
    } else {
        read_digits(digits.drop_first(), value * 10 + digit_value(digits[0]))
    }
}

/// The text without a leading plus sign.
pub open spec fn unsigned_part(text: Seq<char>) -> Seq<char> {
    if text.len() > 0 && text[0] == '+' {
        text.drop_first()
    } else {
        text
    }
}

/// The object identifier that a text writes: decimal digits, with an optional
/// plus sign in front, of a number that fits in 128 bits.
pub open spec fn object_id(text: Seq<char>) -> Result<u128, IdFault> {
    if text.len() == 0 {
        Err(IdFault::Empty)
    } else if unsigned_part(text).len() == 0 {
        Err(IdFault::InvalidDigit)
    } else {
        read_digits(unsigned_part(text), 0)
    }
}

impl IdFault {
    /// The message that describes the fault.
    pub open spec fn text(self) -> Seq<char> {
        match self {
            IdFault::Empty => "cannot parse integer from empty string"@,
            IdFault::InvalidDigit => "invalid digit found in string"@,
            IdFault::TooLarge => "number too large to fit in target type"@,
        }
    }

    /// The message that describes the fault.
    pub fn message(&self) -> (msg: String)
        ensures
            msg@ == self.text(),
    {
        match self {
            IdFault::Empty => String::from_str("cannot parse integer from empty string"),
            IdFault::InvalidDigit => String::from_str("invalid digit found in string"),
            IdFault::TooLarge => String::from_str("number too large to fit in target type"),
        }
    }
}

/// Reads the object identifier that `text` writes.
pub fn parse_object_id(text: &str) -> (parsed: Result<u128, IdFault>)
    ensures
        parsed == object_id(text@),
{
    let mut value: u128 = 0;
    let mut at_start = true;
    let mut signed = false;
    let mut any_digit = false;
    for c in it: text.chars()
        invariant
            it.seq() == text@,
            at_start == (it.index() == 0),
            at_start ==> value == 0,
            signed == (it.index() > 0 && text@[0] == '+'),
            any_digit == (it.index() > (if signed { 1int } else { 0int })),
            signed ==> unsigned_part(text@) == text@.drop_first(),
            !signed && !at_start ==> unsigned_part(text@) == text@,
            !at_start ==> read_digits(unsigned_part(text@), 0) == read_digits(
                text@.skip(it.index() as int),
                value as nat,
            ),
    {
        let ghost i = it.index() as int;
        let ghost rest = text@.skip(i);
        assert(rest.drop_first() =~= text@.skip(i + 1));
        if at_start && c == '+' {
            signed = true;
        } else {
            if !(c >= '0' && c <= '9') {
                return Err(IdFault::InvalidDigit);
            }
            let digit = (c as u32 - '0' as u32) as u128;
            if value > (u128::MAX - digit) / 10 {
                return Err(IdFault::TooLarge);
            }
            value = value * 10 + digit;
            any_digit = true;
        }
        at_start = false;
    }
    if at_start {
        Err(IdFault::Empty)
    } else if !any_digit {
        Err(IdFault::InvalidDigit)
    } else {
        Ok(value)
    }
}

/// The comments whose object identifier is `id`.
pub open spec fn has_object_id(id: u128) -> spec_fn(UnboundComment) -> bool {
    |comment: UnboundComment| object_id(comment.id@) == Ok::<u128, IdFault>(id)
}

/// The fault of the first comment whose identifier is no number, if any.
pub open spec fn first_fault(comments: Seq<UnboundComment>) -> Option<IdFault>
    decreases comments.len(),
{
    if comments.len() == 0 {
        None
    } else {
        match object_id(comments[0].id@) {
            Err(fault) => Some(fault),
            Ok(_) => first_fault(comments.drop_first()),
        }
    }
}

/// Whether the comments stand in ascending order of their object
/// identifiers, all of which are numbers.
pub open spec fn in_creation_order(comments: Seq<UnboundComment>) -> bool {
    &&& forall|i: int|
        0 <= i < comments.len() ==> (#[trigger] object_id(comments[i].id@)) is Ok
    &&& forall|i: int, j: int|
        0 <= i <= j < comments.len() ==> object_id(comments[i].id@)->Ok_0 <= object_id(
            comments[j].id@,
        )->Ok_0
}

/// The identifiers of the comments, read in order; the first one that is no
/// number is reported.
fn parse_object_ids(comments: &Vec<UnboundComment>) -> (parsed: Result<Vec<u128>, IdFault>)
    ensures
        match parsed {
            Ok(ids) => {
                &&& first_fault(comments@) is None
                &&& ids@.len() == comments@.len()
                &&& forall|i: int|
                    0 <= i < ids@.len() ==> object_id(comments@[i].id@) == Ok::<u128, IdFault>(
                        #[trigger] ids@[i],
                    )
            },
            Err(fault) => first_fault(comments@) == Some(fault),
        },
{
    let mut ids: Vec<u128> = Vec::with_capacity(comments.len());
    let mut i: usize = 0;
    assert(comments@.skip(0) =~= comments@);
    while i < comments.len()
        invariant
            i <= comments@.len(),
            ids@.len() == i,
            first_fault(comments@) == first_fault(comments@.skip(i as int)),
            forall|j: int|
                0 <= j < i ==> object_id(comments@[j].id@) == Ok::<u128, IdFault>(
                    #[trigger] ids@[j],
                ),
        decreases comments@.len() - i,
    {
        assert(comments@.skip(i as int).drop_first() =~= comments@.skip(i as int + 1));
        match parse_object_id(comments[i].id.as_str()) {
            Ok(id) => {
                ids.push(id);
            },
            Err(fault) => {
                return Err(fault);
            },
        }
        i += 1;
    }
    Ok(ids)
}

/// Restores the order in which the comments were created.
///
/// The comments come back in ascending order of their object identifiers.
/// Nothing is added or lost, and comments with the same identifier keep the
/// order in which they were handed in. If an identifier is no number, the
/// first such comment decides the error and no order is produced.
pub fn restore_comment_order(comments: Vec<UnboundComment>) -> (restored: Result<
    Vec<UnboundComment>,
    IDParsingError,
>)
    ensures
        match restored {
            Ok(ordered) => {
                &&& first_fault(comments@) is None
                &&& in_creation_order(ordered@)
                &&& ordered@.to_multiset() == comments@.to_multiset()
                &&& forall|id: u128|
                    ordered@.filter(has_object_id(id)) == comments@.filter(has_object_id(id))
            },
            Err(error) => {
                &&& first_fault(comments@) is Some
                &&& error.msg@ == first_fault(comments@)->0.text()
            },
        },
{
    let ids = match parse_object_ids(&comments) {
        Ok(ids) => ids,
        Err(fault) => {
            return Err(IDParsingError { msg: fault.message() });
        },
    };
    let mut ordered: Vec<UnboundComment> = Vec::with_capacity(comments.len());
    let mut keys: Vec<u128> = Vec::with_capacity(comments.len());
    assert(ordered@ =~= comments@.take(0));
    for comment in it: comments.into_iter()
        invariant
            it.seq() == comments@,
            first_fault(comments@) is None,
            ids@.len() == comments@.len(),
            forall|i: int|
                0 <= i < ids@.len() ==> object_id(comments@[i].id@) == Ok::<u128, IdFault>(
                    #[trigger] ids@[i],
                ),
            ordered@.len() == it.index(),
            keys@.len() == it.index(),
            forall|i: int|
                0 <= i < keys@.len() ==> object_id(ordered@[i].id@) == Ok::<u128, IdFault>(
                    #[trigger] keys@[i],
                ),
            forall|i: int, j: int| 0 <= i <= j < keys@.len() ==> keys@[i] <= keys@[j],
            ordered@.to_multiset() == comments@.take(it.index() as int).to_multiset(),
            forall|id: u128|
                ordered@.filter(has_object_id(id)) == comments@.take(it.index() as int).filter(
                    has_object_id(id),
                ),
    {
        let ghost done = it.index() as int;
        let ghost before = ordered@;
        let key = ids[ordered.len()];
        let mut at: usize = keys.len();
        while at > 0 && keys[at - 1] > key
            invariant
                at <= keys@.len(),
                forall|i: int| at <= i < keys@.len() ==> keys@[i] > key,
            decreases at,
        {
            at -= 1;
        }
        keys.insert(at, key);
        ordered.insert(at, comment);
        proof {
            let head = before.take(at as int);
            let tail = before.skip(at as int);
            assert(head + tail =~= before);
            assert(comments@.take(done + 1) =~= comments@.take(done).push(comment));
            vstd::seq_lib::to_multiset_insert(before, at as int, comment);
            vstd::seq_lib::to_multiset_build(comments@.take(done), comment);
            assert forall|id: u128|
                ordered@.filter(has_object_id(id)) == comments@.take(done + 1).filter(
                    has_object_id(id),
                ) by {
                let keep = has_object_id(id);
                lemma_filter_insert(before, at as int, comment, keep);
                Seq::filter_distributes_over_add(head, tail, keep);
                Seq::lemma_filter_push(comments@.take(done), comment, keep);
                if keep(comment) {
                    assert forall|i: int| 0 <= i < tail.len() implies !keep(
                        #[trigger] tail[i],
                    ) by {
                        assert(keys@[at as int + 1 + i] > key);
                    }
                    tail.lemma_all_neg_filter_empty(keep);
                }
            }
        }
    }
    assert(comments@.take(comments@.len() as int) =~= comments@);
    assert(in_creation_order(ordered@)) by {
        assert forall|i: int| 0 <= i < ordered@.len() implies (#[trigger] object_id(
            ordered@[i].id@,
        )) is Ok by {
            assert(object_id(ordered@[i].id@) == Ok::<u128, IdFault>(keys@[i]));
        }
        assert forall|i: int, j: int| 0 <= i <= j < ordered@.len() implies object_id(
            ordered@[i].id@,
        )->Ok_0 <= object_id(ordered@[j].id@)->Ok_0 by {
            assert(object_id(ordered@[i].id@) == Ok::<u128, IdFault>(keys@[i]));
            assert(object_id(ordered@[j].id@) == Ok::<u128, IdFault>(keys@[j]));
        }
    }
    Ok(ordered)
}

/// What a filter keeps of a sequence into which `value` was inserted: what it
/// keeps of the part before the place, then `value` if it passes, then what
/// it keeps of the part from the place on.
proof fn lemma_filter_insert<A>(s: Seq<A>, at: int, value: A, pred: spec_fn(A) -> bool)
    requires
        0 <= at <= s.len(),
    ensures
        s.insert(at, value).filter(pred) == s.take(at).filter(pred) + (if pred(value) {
            seq![value]
        } else {
            Seq::<A>::empty()
        }) + s.skip(at).filter(pred),
{
    let head = s.take(at).push(value);
    assert(s.insert(at, value) =~= head + s.skip(at));
    Seq::filter_distributes_over_add(head, s.skip(at), pred);
    Seq::lemma_filter_push(s.take(at), value, pred);
}

/// Digits written after a number never make it smaller.
proof fn lemma_decimal_grows(prefix: Seq<char>, rest: Seq<char>)
    ensures
        decimal_value(prefix + rest) >= decimal_value(prefix),
    decreases rest.len(),
{
    if rest.len() == 0 {
        assert(prefix + rest =~= prefix);
    } else {
        lemma_decimal_grows(prefix, rest.drop_last());
        assert((prefix + rest).drop_last() =~= prefix + rest.drop_last());
    }
}

/// Reading on from a number that was already read gives the number that all
/// digits together write, if the rest is digits and the number fits.
proof fn lemma_read_digits(prefix: Seq<char>, rest: Seq<char>)
    requires
        decimal_value(prefix) <= u128::MAX,
    ensures
        read_digits(rest, decimal_value(prefix)) is Ok <==> all_digits(rest) && decimal_value(
            prefix + rest,
        ) <= u128::MAX,
        read_digits(rest, decimal_value(prefix)) matches Ok(id) ==> id == decimal_value(
            prefix + rest,
        ),
    decreases rest.len(),
{
    if rest.len() == 0 {
        assert(prefix + rest =~= prefix);
    } else if is_digit(rest[0]) {
        let next = prefix.push(rest[0]);
        assert(next.drop_last() =~= prefix);
        assert(next + rest.drop_first() =~= prefix + rest);
        lemma_decimal_grows(next, rest.drop_first());
        if decimal_value(next) <= u128::MAX {
            lemma_read_digits(next, rest.drop_first());
            assert(all_digits(rest) <==> all_digits(rest.drop_first())) by {
                if all_digits(rest.drop_first()) {
                    assert forall|i: int| 0 <= i < rest.len() implies is_digit(
                        #[trigger] rest[i],
                    ) by {
                        if i > 0 {
                            assert(rest[i] == rest.drop_first()[i - 1]);
                        }
                    }
                }
                if all_digits(rest) {
                    assert forall|i: int| 0 <= i < rest.drop_first().len() implies is_digit(
                        #[trigger] rest.drop_first()[i],
                    ) by {
                        assert(rest.drop_first()[i] == rest[i + 1]);
                    }
                }
            }
        }
    }
}

/// A text is an object identifier exactly when, after an optional plus sign,
/// it is a non-empty string of decimal digits that writes a number within
/// 128 bits; the identifier is that number.
pub proof fn lemma_object_id_is_decimal(text: Seq<char>)
    ensures
        object_id(text) is Ok <==> {
            &&& unsigned_part(text).len() > 0
            &&& all_digits(unsigned_part(text))
            &&& decimal_value(unsigned_part(text)) <= u128::MAX
        },
        object_id(text) matches Ok(id) ==> id == decimal_value(unsigned_part(text)),
{
    let digits = unsigned_part(text);
    if digits.len() > 0 {
        lemma_read_digits(Seq::empty(), digits);
    }
}

} // verus!

//! Accelerators: the boost pads placed ahead of a flying stone. Each one gets
//! a random id, and its node is named after the id.

use vstd::prelude::*;
use rand::Rng;

verus! {

/// Ids of accelerators are drawn from `0..ACCEL_ID_RANGE`.
pub const ACCEL_ID_RANGE: i64 = 100000;

/// A random integer in `0..upper`, from `rand::Rng::gen_range` on the
/// thread-local generator `rand::thread_rng()`.
///
/// The contract claims only what `gen_range`'s documentation promises for a
/// half-open range: the value lies in the range (it panics on an empty range,
/// which `requires` rules out). Which value comes out is left unsaid: it
/// rests on chance. `thread_rng` panics if the operating system cannot seed
/// the generator; no input of this function decides that.
#[verifier::external_body]
fn random_below(upper: i64) -> (r: i64)
    requires
        0 < upper,
    ensures
        0 <= r < upper,
{
    rand::thread_rng().gen_range(0..upper)
}

/// The character of a decimal digit.
pub open spec fn digit_char(d: nat) -> char {
    seq!['0', '1', '2', '3', '4', '5', '6', '7', '8', '9'][d as int]
}

/// The decimal notation of a natural number, without leading zeros.
pub open spec fn decimal(n: nat) -> Seq<char>
    decreases n,
{
    if n < 10 {
        seq![digit_char(n)]
    } else {
        decimal(n / 10).push(digit_char(n % 10))
    }
}

/// The number a digit character stands for.
pub open spec fn digit_value(c: char) -> int {
    (c as int) - ('0' as int)
}

/// Whether a character is a decimal digit.
pub open spec fn is_digit(c: char) -> bool {
    0 <= digit_value(c) < 10
}

/// The number that a string of decimal digits denotes, most significant
/// digit first.
pub open spec fn digits_value(s: Seq<char>) -> int
    decreases s.len(),
{
    if s.len() == 0 {
        0
    } else {
        digits_value(s.drop_last()) * 10 + digit_value(s.last())
    }
}

proof fn lemma_digit_char(d: nat)
    requires
        d < 10,
    ensures
        digit_value(digit_char(d)) == d,
        d != 0 ==> digit_char(d) != '0',
{
    if d == 0 {
    } else if d == 1 {
    } else if d == 2 {
    } else if d == 3 {
    } else if d == 4 {
    } else if d == 5 {
    } else if d == 6 {
    } else if d == 7 {
    } else if d == 8 {
    } else {
    }
}

/// The decimal notation is a non-empty string of digits that reads back as
/// the number, and it starts with `0` only for zero itself.
pub proof fn lemma_decimal_reads_back(n: nat)
    ensures
        decimal(n).len() > 0,
        forall|k: int| 0 <= k < decimal(n).len() ==> is_digit(#[trigger] decimal(n)[k]),
        digits_value(decimal(n)) == n,
        decimal(n)[0] == '0' ==> n == 0,
    decreases n,
{
    if n < 10 {
        lemma_digit_char(n);
        assert(decimal(n).drop_last() =~= Seq::<char>::empty());
        assert(decimal(n)[0] == digit_char(n));
        assert(decimal(n).len() == 1);
        assert(is_digit(decimal(n)[0]));
        assert(digits_value(Seq::<char>::empty()) == 0);
        assert(decimal(n).last() == digit_char(n));
    } else {
        lemma_decimal_reads_back(n / 10);
        lemma_digit_char(n % 10);
        assert(decimal(n).drop_last() =~= decimal(n / 10));
        assert(decimal(n).last() == digit_char(n % 10));
        assert(decimal(n)[0] == decimal(n / 10)[0]);
        assert forall|k: int| 0 <= k < decimal(n).len() implies is_digit(#[trigger] decimal(n)[k]) by {
            if k < decimal(n / 10).len() {
                assert(decimal(n)[k] == decimal(n / 10)[k]);
            } else {
                assert(decimal(n)[k] == digit_char(n % 10));
            }
        }
    }
}

/// The prefix of every accelerator's node name.
pub open spec fn name_prefix() -> Seq<char> {
    seq!['A', 'c', 'c', 'e', 'l', '_']
}

/// The node name of the accelerator with the given id.
pub open spec fn spec_accelerator_name(id: nat) -> Seq<char> {
    name_prefix() + decimal(id)
}

fn digit_str(d: u64) -> (s: &'static str)
    requires
        d < 10,
    ensures
        s@ == seq![digit_char(d as nat)],
{
    if d == 0 {
        proof { reveal_strlit("0"); }
        "0"
    } else if d == 1 {
        proof { reveal_strlit("1"); }
        "1"
    } else if d == 2 {
        proof { reveal_strlit("2"); }
        "2"
    } else if d == 3 {
        proof { reveal_strlit("3"); }
        "3"
    } else if d == 4 {
        proof { reveal_strlit("4"); }
        "4"
    } else if d == 5 {
        proof { reveal_strlit("5"); }
        "5"
    } else if d == 6 {
        proof { reveal_strlit("6"); }
        "6"
    } else if d == 7 {
        proof { reveal_strlit("7"); }
        "7"
    } else if d == 8 {
        proof { reveal_strlit("8"); }
        "8"
    } else {
        proof { reveal_strlit("9"); }
        "9"
    }
}

fn append_decimal(s: &mut String, n: u64)
    ensures
        final(s)@ == old(s)@ + decimal(n as nat),
    decreases n,
{
    if n >= 10 {
        append_decimal(s, n / 10);
    }
    let d = digit_str(n % 10);
    s.append(d);
    assert(s@ =~= old(s)@ + decimal(n as nat));
}

/// The node name of the accelerator with id `id`: `Accel_` followed by the
/// id in decimal.
pub fn accelerator_name(id: u64) -> (name: String)
    ensures
        name@ == spec_accelerator_name(id as nat),
        name@.subrange(0, 6) == name_prefix(),
        name@.len() > 6,
        forall|k: int| 6 <= k < name@.len() ==> is_digit(#[trigger] name@[k]),
        digits_value(name@.subrange(6, name@.len() as int)) == id,
        name@[6] == '0' ==> id == 0,
{
    let mut name = String::from_str("Accel_");
    proof {
        reveal_strlit("Accel_");
        assert(name@ =~= name_prefix());
    }
    append_decimal(&mut name, id);
    proof {
        lemma_decimal_reads_back(id as nat);
        assert(name@.subrange(6, name@.len() as int) =~= decimal(id as nat));
        assert(name@.subrange(0, 6) =~= name_prefix());
    }
    name
}

/// What identifies a newly placed accelerator.
pub struct AcceleratorTag {
    pub id: i64,
    pub name: String,
}

/// Draws a random id for a new accelerator and names it after the id.
pub fn new_accelerator_tag() -> (tag: AcceleratorTag)
    ensures
        0 <= tag.id < ACCEL_ID_RANGE,
        tag.name@ == spec_accelerator_name(tag.id as nat),
{
    let id = random_below(ACCEL_ID_RANGE);
    AcceleratorTag { id, name: accelerator_name(id as u64) }
}

} // verus!

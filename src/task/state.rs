use vstd::prelude::*;

verus! {

/// Whether `flag` is set in the word `bits`.
pub open spec fn flag_on(bits: u16, flag: u16) -> bool {
    bits & flag != 0
}

/// The lifecycle flags of one task, as a bit set.
#[derive(Clone, Copy, Debug, PartialEq, Eq, Structural)]
pub struct State {
    bits: u16,
}

impl View for State {
    type V = u16;

    closed spec fn view(&self) -> u16 {
        self.bits
    }
}

impl State {
    /// Execution is in progress.
    pub const RUNNING: u16 = 0b0000_0000_0000_0001;
    /// Execution completed, normally or with a captured panic.
    pub const FINISHED: u16 = 0b0000_0000_0000_0010;
    /// Cancellation was requested.
    pub const ABORTED: u16 = 0b0000_0000_0000_0100;
    /// The pool holds a reference to the task.
    pub const EXECUTOR_ALIVE: u16 = 0b0000_0000_0001_0000;
    /// A join handle to the task exists.
    pub const HANDLE_ALIVE: u16 = 0b0000_0000_0010_0000;
    /// The output slot holds the result.
    pub const OUTPUT_READY: u16 = 0b0000_0001_0000_0000;
    /// The result was moved out of the output slot.
    pub const OUTPUT_TAKEN: u16 = 0b0000_0010_0000_0000;
    /// All seven flags.
    pub const ALL_FLAGS: u16 = 0b0000_0011_0011_0111;

    /// An empty word: no flag is set.
    pub fn new() -> (s: State)
        ensures
            s@ == 0,
    {
        State { bits: 0 }
    }

    /// Sets `item` when `value` holds, clears it otherwise.
    pub fn set(&mut self, item: u16, value: bool)
        ensures
            final(self)@ == if value { old(self)@ | item } else { old(self)@ & !item },
    {
        if value {
            self.bits = self.bits | item;
        } else {
            self.bits = self.bits & !item;
        }
    }

    /// Whether any bit of `item` is set.
    pub fn get(&self, item: u16) -> (r: bool)
        ensures
            r == flag_on(self@, item),
    {
        self.bits & item != 0
    }

    /// The whole word.
    pub fn load_all(&self) -> (r: u16)
        ensures
            r == self@,
    {
        self.bits
    }
}

/// No bit outside the seven flags is set in `bits`.
pub open spec fn only_flags(bits: u16) -> bool {
    bits & !State::ALL_FLAGS == 0
}

/// One of the seven lifecycle flags.
pub open spec fn is_flag(f: u16) -> bool {
    ||| f == State::RUNNING
    ||| f == State::FINISHED
    ||| f == State::ABORTED
    ||| f == State::EXECUTOR_ALIVE
    ||| f == State::HANDLE_ALIVE
    ||| f == State::OUTPUT_READY
    ||| f == State::OUTPUT_TAKEN
}

proof fn lemma_single_bit(x: u16, a: u16, b: u16)
    by (bit_vector)
    requires
        b == 1u16 || b == 2u16 || b == 4u16 || b == 16u16 || b == 32u16 || b == 256u16 || b
            == 512u16,
    ensures
        ((x | a) & b != 0) == ((x & b != 0) || (a & b != 0)),
        ((x & !a) & b != 0) == ((x & b != 0) && (a & b == 0)),
        (0u16 & b) == 0,
{
}

proof fn lemma_only_flags(x: u16, a: u16)
    by (bit_vector)
    requires
        a == 1u16 || a == 2u16 || a == 4u16 || a == 16u16 || a == 32u16 || a == 256u16 || a
            == 512u16,
    ensures
        only_flags(x) ==> only_flags(x | a),
        only_flags(x) ==> only_flags(x & !a),
        only_flags(0),
{
}

proof fn lemma_or_twice(x: u16, a: u16)
    by (bit_vector)
    ensures
        (x | a) | a == x | a,
{
}

proof fn lemma_distinct_bits(f: u16, g: u16)
    by (bit_vector)
    requires
        f == 1u16 || f == 2u16 || f == 4u16 || f == 16u16 || f == 32u16 || f == 256u16 || f
            == 512u16,
        g == 1u16 || g == 2u16 || g == 4u16 || g == 16u16 || g == 32u16 || g == 256u16 || g
            == 512u16,
    ensures
        (f & g != 0) == (f == g),
{
}

/// How setting and clearing a word acts on each flag: flags are single,
/// distinct bits, so each one can be read apart from the others.
pub proof fn lemma_flags()
    ensures
        forall|f: u16, g: u16| is_flag(f) && is_flag(g) ==> (#[trigger] flag_on(f, g) <==> f == g),
        forall|x: u16, a: u16, b: u16|
            is_flag(b) ==> (#[trigger] flag_on(x | a, b) <==> flag_on(x, b) || flag_on(a, b)),
        forall|x: u16, a: u16, b: u16|
            is_flag(b) ==> (#[trigger] flag_on(x & !a, b) <==> flag_on(x, b) && !flag_on(a, b)),
        forall|b: u16| is_flag(b) ==> !#[trigger] flag_on(0, b),
        forall|x: u16, a: u16| #[trigger] ((x | a) | a) == x | a,
        forall|x: u16, a: u16| is_flag(a) && only_flags(x) ==> #[trigger] only_flags(x | a),
        forall|x: u16, a: u16| is_flag(a) && only_flags(x) ==> #[trigger] only_flags(x & !a),
        only_flags(0),
{
    assert forall|f: u16, g: u16| is_flag(f) && is_flag(g) implies (#[trigger] flag_on(f, g) <==> f
        == g) by {
        lemma_distinct_bits(f, g);
    }
    assert forall|x: u16, a: u16, b: u16| is_flag(b) implies (#[trigger] flag_on(x | a, b) <==> flag_on(
        x,
        b,
    ) || flag_on(a, b)) by {
        lemma_single_bit(x, a, b);
    }
    assert forall|x: u16, a: u16, b: u16| is_flag(b) implies (#[trigger] flag_on(x & !a, b) <==> flag_on(
        x,
        b,
    ) && !flag_on(a, b)) by {
        lemma_single_bit(x, a, b);
    }
    assert forall|b: u16| is_flag(b) implies !#[trigger] flag_on(0, b) by {
        lemma_single_bit(0, 0, b);
    }
    assert forall|x: u16, a: u16| #[trigger] ((x | a) | a) == x | a by {
        lemma_or_twice(x, a);
    }
    assert forall|x: u16, a: u16| is_flag(a) && only_flags(x) implies #[trigger] only_flags(
        x | a,
    ) by {
        lemma_only_flags(x, a);
    }
    assert forall|x: u16, a: u16| is_flag(a) && only_flags(x) implies #[trigger] only_flags(
        x & !a,
    ) by {
        lemma_only_flags(x, a);
    }
    lemma_only_flags(0, 1);
}

} // verus!

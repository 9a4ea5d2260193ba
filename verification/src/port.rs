//! The I/O port: one input value, one output value, and the record of what
//! was written.

use vstd::prelude::*;

verus! {

/// What a port holds, as numbers.
pub ghost struct PortState {
    /// The value that the outside presents to the machine.
    pub input: int,
    /// The value written last.
    pub output: int,
    /// Every value written and not yet taken, oldest first.
    pub writes: Seq<int>,
}

/// The bytes of a record as a sequence of numbers.
pub open spec fn as_ints(bytes: Seq<u8>) -> Seq<int> {
    bytes.map_values(|v: u8| v as int)
}

/// The port. A write replaces the output value and is appended to the record
/// of writes, through which each one can be observed.
#[derive(Debug)]
pub struct Port {
    input: u8,
    output: u8,
    writes: Vec<u8>,
}

impl View for Port {
    type V = PortState;

    closed spec fn view(&self) -> PortState {
        PortState {
            input: self.input as int,
            output: self.output as int,
            writes: as_ints(self.writes@),
        }
    }
}

impl Port {
    /// A port that presents `input` and on which nothing has been written.
    pub fn new(input: u8) -> (res: Port)
        ensures
            res@ == (PortState { input: input as int, output: 0, writes: Seq::<int>::empty() }),
    {
        let res = Port { input, output: 0, writes: Vec::new() };
        assert(res@.writes =~= Seq::<int>::empty());
        res
    }

    /// The input value. Reading does not consume it.
    pub fn input(&self) -> (res: u8)
        ensures
            res as int == self@.input,
    {
        self.input
    }

    /// Replaces the input value.
    pub fn set_input(&mut self, value: u8)
        ensures
            final(self)@ == (PortState { input: value as int, ..old(self)@ }),
    {
        self.input = value;
    }

    /// The value written last, 0 before the first write.
    pub fn output(&self) -> (res: u8)
        ensures
            res as int == self@.output,
    {
        self.output
    }

    /// Writes `value`: it becomes the output value and the newest entry of the
    /// record.
    pub fn set_output(&mut self, value: u8)
        ensures
            final(self)@ == (PortState {
                output: value as int,
                writes: old(self)@.writes.push(value as int),
                ..old(self)@
            }),
    {
        self.output = value;
        self.writes.push(value);
        assert(as_ints(self.writes@) =~= as_ints(old(self).writes@).push(value as int));
    }

    /// The number of writes on record.
    pub fn write_count(&self) -> (res: usize)
        ensures
            res == self@.writes.len(),
    {
        self.writes.len()
    }

    /// Hands out the record of writes, oldest first, and empties it. Input and
    /// output value stay.
    pub fn take_writes(&mut self) -> (res: Vec<u8>)
        ensures
            as_ints(res@) == old(self)@.writes,
            final(self)@ == (PortState { writes: Seq::<int>::empty(), ..old(self)@ }),
    {
        let mut taken: Vec<u8> = Vec::new();
        std::mem::swap(&mut self.writes, &mut taken);
        assert(as_ints(self.writes@) =~= Seq::<int>::empty());
        taken
    }
}

} // verus!

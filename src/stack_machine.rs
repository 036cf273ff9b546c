use vstd::prelude::*;

verus! {

/// One instruction of the shader stack machine.
#[derive(Debug, Copy, Clone, PartialEq, Eq)]
pub enum Opcode<T> {
    Nop,
    Literal(T),
    Context(u32),
    Neg,
    Add,
    Sub,
    Mul,
    Div,
    Mod,
    Abs,
    Min,
    Max,
}

impl<T> Opcode<T> {
    /// The instruction's number in the machine's program encoding.
    pub open spec fn spec_code(&self) -> u32 {
        match self {
            Opcode::Nop => 0,
            Opcode::Literal(_) => 1,
            Opcode::Context(_) => 2,
            Opcode::Neg => 3,
            Opcode::Add => 4,
            Opcode::Sub => 5,
            Opcode::Mul => 6,
            Opcode::Div => 7,
            Opcode::Mod => 8,
            Opcode::Abs => 9,
            Opcode::Min => 10,
            Opcode::Max => 11,
        }
    }

    pub fn code(&self) -> (r: u32)
        ensures
            r == self.spec_code(),
    {
        match self {
            Opcode::Nop => 0,
            Opcode::Literal(_) => 1,
            Opcode::Context(_) => 2,
            Opcode::Neg => 3,
            Opcode::Add => 4,
            Opcode::Sub => 5,
            Opcode::Mul => 6,
            Opcode::Div => 7,
            Opcode::Mod => 8,
            Opcode::Abs => 9,
            Opcode::Min => 10,
            Opcode::Max => 11,
        }
    }
}

/// A program for the stack machine.
#[derive(Debug, Clone)]
pub struct PCode<T>(pub Vec<Opcode<T>>);

impl<T> PCode<T> {
    /// The instruction numbers of the program, in order.
    pub fn codes(&self) -> (r: Vec<u32>)
        ensures
            r@.len() == self.0@.len(),
            forall|i: int| 0 <= i < r@.len() ==> r@[i] == (#[trigger] self.0@[i]).spec_code(),
    {
        let mut r: Vec<u32> = Vec::new();
        let mut i: usize = 0;
        while i < self.0.len()
            invariant
                i <= self.0@.len(),
                r@.len() == i,
                forall|j: int| 0 <= j < i ==> r@[j] == (#[trigger] self.0@[j]).spec_code(),
            decreases self.0@.len() - i,
        {
            r.push(self.0[i].code());
            i = i + 1;
        }
        r
    }
}

/// A stack machine of sixteen slots; `stack_pointer` is the index of the top
/// slot, -1 when the stack is empty.
#[derive(Debug, Clone)]
pub struct StackMachine<T> {
    pub stack: [T; 16],
    pub stack_pointer: isize,
    pub pcode: Vec<Opcode<T>>,
}

impl<T: Copy + Default> StackMachine<T> {
    /// Whether the stack holds at least one value.
    pub open spec fn has_top(&self) -> bool {
        0 <= self.stack_pointer < 16
    }

    /// The value on top of the stack.
    pub fn read(&self) -> (r: T)
        requires
            self.has_top(),
        ensures
            r == self.stack@[self.stack_pointer as int],
    {
        self.stack[self.stack_pointer as usize]
    }

    /// The slot on top of the stack, to overwrite.
    pub fn write(&mut self) -> (r: &mut T)
        requires
            old(self).has_top(),
        ensures
            *r == old(self).stack@[old(self).stack_pointer as int],
            final(self).stack@ == old(self).stack@.update(old(self).stack_pointer as int, *final(r)),
            final(self).stack_pointer == old(self).stack_pointer,
            final(self).pcode == old(self).pcode,
    {
        &mut self.stack[self.stack_pointer as usize]
    }

    /// Puts `t` on top of the stack.
    pub fn push(&mut self, t: T)
        requires
            -1 <= old(self).stack_pointer < 15,
        ensures
            final(self).stack_pointer == old(self).stack_pointer + 1,
            final(self).stack@ == old(self).stack@.update(old(self).stack_pointer + 1, t),
            final(self).pcode == old(self).pcode,
    {
        self.stack_pointer = self.stack_pointer + 1;
        *self.write() = t;
    }

    /// Takes the value on top of the stack and leaves a default value in its slot.
    pub fn pop(&mut self) -> (r: T)
        requires
            old(self).has_top(),
        ensures
            r == old(self).stack@[old(self).stack_pointer as int],
            final(self).stack_pointer == old(self).stack_pointer - 1,
            final(self).stack@.len() == 16,
            forall|i: int|
                0 <= i < 16 && i != old(self).stack_pointer ==> #[trigger] final(self).stack@[i]
                    == old(self).stack@[i],
            T::default.ensures((), final(self).stack@[old(self).stack_pointer as int]),
            final(self).pcode == old(self).pcode,
    {
        let t = self.read();
        *self.write() = T::default();
        self.stack_pointer = self.stack_pointer - 1;
        t
    }

    /// Takes the two values on top of the stack, the top one first.
    pub fn pop2(&mut self) -> (r: (T, T))
        requires
            1 <= old(self).stack_pointer < 16,
        ensures
            r.0 == old(self).stack@[old(self).stack_pointer as int],
            r.1 == old(self).stack@[old(self).stack_pointer - 1],
            final(self).stack_pointer == old(self).stack_pointer - 2,
            forall|i: int|
                0 <= i < 16 && i != old(self).stack_pointer && i != old(self).stack_pointer - 1
                    ==> #[trigger] final(self).stack@[i] == old(self).stack@[i],
            final(self).pcode == old(self).pcode,
    {
        let a = self.pop();
        let b = self.pop();
        (a, b)
    }
}

impl<T: Default + Copy> Default for StackMachine<T> {
    fn default() -> (r: StackMachine<T>)
        ensures
            r.stack_pointer == -1,
            r.pcode@.len() == 0,
    {
        StackMachine {
            stack: [
                T::default(),
                T::default(),
                T::default(),
                T::default(),
                T::default(),
                T::default(),
                T::default(),
                T::default(),
                T::default(),
                T::default(),
                T::default(),
                T::default(),
                T::default(),
                T::default(),
                T::default(),
                T::default(),
            ],
            stack_pointer: -1,
            pcode: Vec::new(),
        }
    }
}

/// The literal operands of a program, in order.
pub open spec fn literals_of<T>(ops: Seq<Opcode<T>>) -> Seq<T>
    decreases ops.len(),
{
    if ops.len() == 0 {
        Seq::empty()
    } else {
        let rest = literals_of(ops.drop_last());
        match ops.last() {
            Opcode::Literal(t) => rest.push(t),
            _ => rest,
        }
    }
}

/// The context indices of a program, in order.
pub open spec fn context_indices_of<T>(ops: Seq<Opcode<T>>) -> Seq<u32>
    decreases ops.len(),
{
    if ops.len() == 0 {
        Seq::empty()
    } else {
        let rest = context_indices_of(ops.drop_last());
        match ops.last() {
            Opcode::Context(i) => rest.push(i),
            _ => rest,
        }
    }
}

/// Slot `u` of row `i` when `v` is laid out four to a row: the value at
/// `4 * i + u`, or `fill` past the end.
pub open spec fn packed_slot<T>(v: Seq<T>, i: int, u: int, fill: T) -> T {
    if 4 * i + u < v.len() {
        v[4 * i + u]
    } else {
        fill
    }
}

/// Lays out the first sixty-four values of `v` in sixteen rows of four,
/// filling the slots past its end with `fill`.
pub fn pack_rows<T: Copy>(v: &Vec<T>, fill: T) -> (r: Vec<[T; 4]>)
    ensures
        r@.len() == 16,
        forall|i: int, u: int| 0 <= i < 16 && 0 <= u < 4 ==> #[trigger] r@[i]@[u] == packed_slot(v@, i, u, fill),
{
    let mut r: Vec<[T; 4]> = Vec::new();
    let mut i: usize = 0;
    while i < 16
        invariant
            i <= 16,
            r@.len() == i,
            forall|j: int, u: int| 0 <= j < i && 0 <= u < 4 ==> #[trigger] r@[j]@[u] == packed_slot(v@, j, u, fill),
        decreases 16 - i,
    {
        let mut row: [T; 4] = [fill, fill, fill, fill];
        let mut u: usize = 0;
        while u < 4
            invariant
                i < 16,
                u <= 4,
                forall|w: int| 0 <= w < u ==> #[trigger] row@[w] == packed_slot(v@, i as int, w, fill),
                forall|w: int| u <= w < 4 ==> #[trigger] row@[w] == fill,
            decreases 4 - u,
        {
            let k = 4 * i + u;
            if k < v.len() {
                row[u] = v[k];
            }
            u = u + 1;
        }
        r.push(row);
        i = i + 1;
    }
    r
}

/// A program laid out for the shader: the instruction numbers, the literal
/// operands and the context indices, each in sixteen rows of four.
pub struct StackMachineUniform<T> {
    pub pcode: Vec<[u32; 4]>,
    pub push_buf: Vec<[T; 4]>,
    pub context_idx_buf: Vec<[u32; 4]>,
}

impl<T: Copy> PCode<T> {
    /// The literal operands of the program, in order.
    pub fn literals(&self) -> (r: Vec<T>)
        ensures
            r@ == literals_of(self.0@),
    {
        let mut r: Vec<T> = Vec::new();
        let mut i: usize = 0;
        while i < self.0.len()
            invariant
                i <= self.0@.len(),
                r@ == literals_of(self.0@.subrange(0, i as int)),
            decreases self.0@.len() - i,
        {
            proof {
                assert(self.0@.subrange(0, i + 1).drop_last() =~= self.0@.subrange(0, i as int));
            }
            if let Opcode::Literal(t) = self.0[i] {
                r.push(t);
            }
            i = i + 1;
        }
        assert(self.0@.subrange(0, self.0@.len() as int) =~= self.0@);
        r
    }

    /// The context indices of the program, in order.
    pub fn context_indices(&self) -> (r: Vec<u32>)
        ensures
            r@ == context_indices_of(self.0@),
    {
        let mut r: Vec<u32> = Vec::new();
        let mut i: usize = 0;
        while i < self.0.len()
            invariant
                i <= self.0@.len(),
                r@ == context_indices_of(self.0@.subrange(0, i as int)),
            decreases self.0@.len() - i,
        {
            proof {
                assert(self.0@.subrange(0, i + 1).drop_last() =~= self.0@.subrange(0, i as int));
            }
            if let Opcode::Context(c) = self.0[i] {
                r.push(c);
            }
            i = i + 1;
        }
        assert(self.0@.subrange(0, self.0@.len() as int) =~= self.0@);
        r
    }
}

impl<T: Copy> StackMachineUniform<T> {
    /// Lays out a program for the shader; what does not fit in sixty-four
    /// slots is left out, and empty slots hold 0 (`fill` for operands).
    pub fn from_pcode(program: &PCode<T>, fill: T) -> (r: StackMachineUniform<T>)
        ensures
            r.pcode@.len() == 16,
            r.push_buf@.len() == 16,
            r.context_idx_buf@.len() == 16,
            forall|i: int, u: int| 0 <= i < 16 && 0 <= u < 4 ==> {
                &&& #[trigger] r.pcode@[i]@[u] == packed_slot(program.0@.map_values(|o: Opcode<T>| o.spec_code()), i, u, 0u32)
                &&& r.push_buf@[i]@[u] == packed_slot(literals_of(program.0@), i, u, fill)
                &&& r.context_idx_buf@[i]@[u] == packed_slot(context_indices_of(program.0@), i, u, 0u32)
            },
    {
        let codes = program.codes();
        assert(codes@ =~= program.0@.map_values(|o: Opcode<T>| o.spec_code()));
        StackMachineUniform {
            pcode: pack_rows(&codes, 0),
            push_buf: pack_rows(&program.literals(), fill),
            context_idx_buf: pack_rows(&program.context_indices(), 0),
        }
    }
}

} // verus!

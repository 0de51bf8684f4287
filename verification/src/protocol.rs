//! Protocol messages, as plain values.

use vstd::prelude::*;

verus! {

/// The id that stands for "no object".
pub const NULL_ID: u32 = 0;

/// One argument of a message.
#[derive(Clone, Debug, PartialEq, Eq)]
pub enum Argument {
    /// A signed integer.
    Int(i32),
    /// An unsigned integer.
    Uint(u32),
    /// A fixed-point number with 8 fractional bits, as its raw bits.
    Fixed(i32),
    /// A string as its bytes, or the null string.
    Str(Option<Vec<u8>>),
    /// The id of an existing object; `NULL_ID` for none.
    Object(u32),
    /// The id of an object that this message creates; `NULL_ID` for none.
    NewId(u32),
    /// A byte array.
    Array(Vec<u8>),
    /// A file descriptor.
    Fd(i32),
}

/// A message that the peer sent from one of its objects.
#[derive(Clone, Debug, PartialEq, Eq)]
pub struct RawEvent {
    /// The id of the object that sent the message.
    pub sender_id: u32,
    /// Which event of the sender's interface this is.
    pub opcode: u16,
    /// The arguments, in wire order.
    pub args: Vec<Argument>,
}

impl Argument {
    /// Whether this argument announces a new object (its id may still be null).
    pub open spec fn is_new_id(self) -> bool {
        self is NewId
    }
}

/// Whether `i` is the position of the first new-id argument of `args`.
pub open spec fn first_new_id_at(args: Seq<Argument>, i: int) -> bool {
    &&& 0 <= i < args.len()
    &&& args[i].is_new_id()
    &&& forall|j: int| 0 <= j < i ==> !(#[trigger] args[j]).is_new_id()
}

/// The id carried by the first new-id argument of `args`, if there is one.
pub open spec fn first_new_id(args: Seq<Argument>) -> Option<u32> {
    if exists|i: int| first_new_id_at(args, i) {
        let i = choose|i: int| first_new_id_at(args, i);
        Some(args[i]->NewId_0)
    } else {
        None
    }
}

/// Two positions that are both the first new-id argument are the same one.
pub proof fn first_new_id_unique(args: Seq<Argument>, i: int, j: int)
    requires
        first_new_id_at(args, i),
        first_new_id_at(args, j),
    ensures
        i == j,
{
    if i < j {
        assert(!args[i].is_new_id());
    }
    if j < i {
        assert(!args[j].is_new_id());
    }
}

impl RawEvent {
    /// The id of the object that this event creates, if its arguments hold a
    /// new-id at all: the first such argument decides.
    pub fn new_id(&self) -> (r: Option<u32>)
        ensures
            r == first_new_id(self.args@),
    {
        let mut i: usize = 0;
        while i < self.args.len()
            invariant
                0 <= i <= self.args.len(),
                forall|j: int| 0 <= j < i ==> !(#[trigger] self.args@[j]).is_new_id(),
            decreases self.args.len() - i,
        {
            match &self.args[i] {
                Argument::NewId(id) => {
                    proof {
                        assert(first_new_id_at(self.args@, i as int));
                        let k = choose|k: int| first_new_id_at(self.args@, k);
                        first_new_id_unique(self.args@, i as int, k);
                    }
                    return Some(*id);
                },
                _ => {},
            }
            i += 1;
        }
        proof {
            assert forall|k: int| !first_new_id_at(self.args@, k) by {
                if first_new_id_at(self.args@, k) {
                    assert(!self.args@[k].is_new_id());
                }
            }
        }
        None
    }

    /// Whether this event creates an object: it holds a new-id argument, and
    /// the first such argument is not null.
    pub open spec fn creates_object(self) -> bool {
        match first_new_id(self.args@) {
            Some(id) => id != NULL_ID,
            None => false,
        }
    }
}

} // verus!

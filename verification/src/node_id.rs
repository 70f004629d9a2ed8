//! Identifiers of nodes.

use vstd::prelude::*;

verus! {

/// The identifier of a node: the bytes of its public key.
#[derive(Clone, Copy, Debug, PartialEq, Eq)]
pub struct NodeId {
    pub bytes: [u8; 32],
}

/// The lowercase hexadecimal digit for `n`.
pub open spec fn hex_digit(n: int) -> char {
    if n < 10 {
        ('0' as int + n) as char
    } else {
        ('a' as int + n - 10) as char
    }
}

/// The lowercase hexadecimal spelling of `bytes`: two digits for each byte, the
/// high half first.
pub open spec fn hex(bytes: Seq<u8>) -> Seq<char> {
    Seq::new(
        2 * bytes.len(),
        |i: int| hex_digit(if i % 2 == 0 { bytes[i / 2] as int / 16 } else { bytes[i / 2] as int % 16 }),
    )
}

fn digit_text(n: u8) -> (text: &'static str)
    requires
        n < 16,
    ensures
        text@ == seq![hex_digit(n as int)],
{
    proof {
        reveal_strlit("0");
        reveal_strlit("1");
        reveal_strlit("2");
        reveal_strlit("3");
        reveal_strlit("4");
        reveal_strlit("5");
        reveal_strlit("6");
        reveal_strlit("7");
        reveal_strlit("8");
        reveal_strlit("9");
        reveal_strlit("a");
        reveal_strlit("b");
        reveal_strlit("c");
        reveal_strlit("d");
        reveal_strlit("e");
        reveal_strlit("f");
    }
    match n {
        0 => "0",
        1 => "1",
        2 => "2",
        3 => "3",
        4 => "4",
        5 => "5",
        6 => "6",
        7 => "7",
        8 => "8",
        9 => "9",
        10 => "a",
        11 => "b",
        12 => "c",
        13 => "d",
        14 => "e",
        _ => "f",
    }
}

impl NodeId {
    /// Whether the two identifiers name the same node.
    pub fn same(&self, other: &NodeId) -> (same: bool)
        ensures
            same == (*self == *other),
    {
        let mut i: usize = 0;
        while i < 32
            invariant
                i <= 32,
                forall|j: int| 0 <= j < i ==> self.bytes@[j] == other.bytes@[j],
            decreases 32 - i,
        {
            if self.bytes[i] != other.bytes[i] {
                return false;
            }
            i += 1;
        }
        assert(self.bytes =~= other.bytes);
        true
    }

    /// Returns the hexadecimal spelling of this identifier.
    pub fn to_hex(&self) -> (text: String)
        ensures
            text@ == hex(self.bytes@),
    {
        let mut text: String = String::new();
        let mut i: usize = 0;
        while i < 32
            invariant
                i <= 32,
                text@ == hex(self.bytes@.take(i as int)),
            decreases 32 - i,
        {
            let byte: u8 = self.bytes[i];
            text.append(digit_text(byte / 16));
            text.append(digit_text(byte % 16));
            i += 1;
            assert(text@ =~= hex(self.bytes@.take(i as int)));
        }
        assert(self.bytes@.take(32) =~= self.bytes@);
        text
    }
}

/// Whether `nodes` names the node `id`.
pub fn contains(nodes: &Vec<NodeId>, id: &NodeId) -> (found: bool)
    ensures
        found == nodes@.contains(*id),
{
    let mut i: usize = 0;
    while i < nodes.len()
        invariant
            i <= nodes.len(),
            forall|j: int| 0 <= j < i ==> nodes@[j] != *id,
        decreases nodes.len() - i,
    {
        if nodes[i].same(id) {
            return true;
        }
        i += 1;
    }
    false
}

/// Two nodes with the same spelling are the same node.
pub proof fn spelling_is_unique(a: NodeId, b: NodeId)
    requires
        hex(a.bytes@) == hex(b.bytes@),
    ensures
        a == b,
{
    assert forall|i: int| 0 <= i < 32 implies a.bytes@[i] == b.bytes@[i] by {
        let (x, y) = (a.bytes@[i] as int, b.bytes@[i] as int);
        assert(hex(a.bytes@)[2 * i] == hex_digit(x / 16));
        assert(hex(b.bytes@)[2 * i] == hex_digit(y / 16));
        assert(hex(a.bytes@)[2 * i + 1] == hex_digit(x % 16));
        assert(hex(b.bytes@)[2 * i + 1] == hex_digit(y % 16));
    }
    assert(a.bytes =~= b.bytes);
}

} // verus!

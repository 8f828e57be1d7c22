use vstd::prelude::*;

verus! {

/// The lowercase hex digit of a nibble.
pub open spec fn hex_digit(n: u32) -> u8 {
    if n < 10 {
        (0x30 + n) as u8
    } else {
        (0x61 + n - 10) as u8
    }
}

/// The ASCII name of the block function of `addr`: `sub_` and eight lowercase hex digits,
/// most significant first.
pub open spec fn block_name_bytes(addr: u32) -> Seq<u8> {
    seq![0x73u8, 0x75u8, 0x62u8, 0x5fu8] + Seq::new(
        8,
        |i: int| hex_digit(((addr as int / pow16((7 - i) as nat) as int) % 16) as u32),
    )
}

pub open spec fn pow16(n: nat) -> nat
    decreases n,
{
    if n == 0 {
        1
    } else {
        16 * pow16((n - 1) as nat)
    }
}

/// Relies on `String::from_utf8`: ASCII bytes are valid UTF-8, and each becomes one character.
#[verifier::external_body]
fn ascii_to_string(bytes: Vec<u8>) -> (r: String)
    requires
        forall|i: int| 0 <= i < bytes@.len() ==> bytes@[i] < 0x80,
    ensures
        r@ == bytes@.map_values(|b: u8| b as char),
{
    String::from_utf8(bytes).unwrap()
}

/// The ASCII bytes of the name of the block function of `addr`.
pub fn block_name_ascii(addr: u32) -> (r: Vec<u8>)
    ensures
        r@ == block_name_bytes(addr),
{
    let mut r: Vec<u8> = vec![0x73u8, 0x75u8, 0x62u8, 0x5fu8];
    let mut i: u32 = 0;
    let mut p: u32 = 0x1000_0000;
    proof {
        reveal_with_fuel(pow16, 8);
    }
    while i < 8
        invariant
            i <= 8,
            p as nat == pow16((7 - i) as nat) || (i == 8 && p == 0),
            r@.len() == 4 + i,
            r@ =~= block_name_bytes(addr).take(4 + i as int),
        decreases 8 - i,
    {
        proof {
            reveal_with_fuel(pow16, 8);
        }
        let n: u32 = (addr / p) % 16;
        let d: u8 = if n < 10 {
            (0x30 + n) as u8
        } else {
            (0x61 + n - 10) as u8
        };
        r.push(d);
        i = i + 1;
        p = p / 16;
        assert(r@ =~= block_name_bytes(addr).take(4 + i as int));
    }
    assert(block_name_bytes(addr).take(12) =~= block_name_bytes(addr));
    r
}

/// The name of the block function of `addr`: `sub_` followed by eight lowercase hex digits.
pub fn get_name_for(addr: u32) -> (r: String)
    ensures
        r@ == block_name_bytes(addr).map_values(|b: u8| b as char),
{
    let bytes = block_name_ascii(addr);
    ascii_to_string(bytes)
}

/// The block functions of one translation unit: the handle of a function is its position.
pub struct BlockTable {
    addrs: Vec<u32>,
}

/// A table holds each address once.
pub open spec fn table_ok(t: Seq<u32>) -> bool {
    forall|i: int, j: int| 0 <= i < t.len() && 0 <= j < t.len() && t[i] == t[j] ==> i == j
}

/// The table after a request for `addr`: a new entry only where there was none.
pub open spec fn table_add(t: Seq<u32>, addr: u32) -> Seq<u32> {
    if t.contains(addr) {
        t
    } else {
        t.push(addr)
    }
}

impl BlockTable {
    pub closed spec fn view(&self) -> Seq<u32> {
        self.addrs@
    }

    pub fn new() -> (r: BlockTable)
        ensures
            r@ == Seq::<u32>::empty(),
    {
        BlockTable { addrs: Vec::new() }
    }

    pub fn len(&self) -> (r: usize)
        ensures
            r == self@.len(),
    {
        self.addrs.len()
    }

    /// The address of the function with handle `h`.
    pub fn address(&self, h: usize) -> (r: u32)
        requires
            h < self@.len(),
        ensures
            r == self@[h as int],
    {
        self.addrs[h]
    }

    /// The handle of the block function of `addr`, which is declared on the first request.
    pub fn get_basic_block_fun(&mut self, addr: u32) -> (r: usize)
        requires
            table_ok(old(self)@),
        ensures
            final(self)@ == table_add(old(self)@, addr),
            table_ok(final(self)@),
            r < final(self)@.len(),
            final(self)@[r as int] == addr,
    {
        let mut i: usize = 0;
        while i < self.addrs.len()
            invariant
                i <= self.addrs@.len(),
                self@ == old(self)@,
                table_ok(self@),
                forall|j: int| 0 <= j < i ==> self.addrs@[j] != addr,
            decreases self.addrs@.len() - i,
        {
            if self.addrs[i] == addr {
                return i;
            }
            i = i + 1;
        }
        assert(!old(self)@.contains(addr));
        self.addrs.push(addr);
        i
    }
}

/// A second request for the function of an address returns the handle of the first and
/// leaves the table as it was.
pub proof fn lemma_block_request_idempotent(t: Seq<u32>, addr: u32, h1: int, h2: int)
    requires
        table_ok(t),
        0 <= h1 < table_add(t, addr).len(),
        table_add(t, addr)[h1] == addr,
        0 <= h2 < table_add(table_add(t, addr), addr).len(),
        table_add(table_add(t, addr), addr)[h2] == addr,
    ensures
        table_add(table_add(t, addr), addr) == table_add(t, addr),
        h1 == h2,
{
    let t1 = table_add(t, addr);
    assert(t1.contains(addr));
    if !t.contains(addr) {
        assert forall|i: int, j: int|
            0 <= i < t1.len() && 0 <= j < t1.len() && t1[i] == t1[j] implies i == j by {
            if i < t.len() && j == t.len() {
                assert(t.contains(addr));
            }
            if j < t.len() && i == t.len() {
                assert(t.contains(addr));
            }
        }
    }
}

} // verus!

use vstd::prelude::*;
use vstd::string::StringSliceAdditionalSpecFns;
use crate::input::{CR, NL};

verus! {

/// The bytes sent on the serial line for text `s`: each line feed is
/// preceded by a carriage return.
pub open spec fn wire(s: Seq<u8>) -> Seq<u8>
    decreases s.len(),
{
    if s.len() == 0 {
        Seq::empty()
    } else if s.last() == NL {
        wire(s.drop_last()).push(CR).push(NL)
    } else {
        wire(s.drop_last()).push(s.last())
    }
}

/// The mini UART of the board.
pub struct Uart;

/// Function select value of a GPIO pin for its alternative function 5.
pub const GPIO_FSEL_ALT5: u32 = 2;

impl Uart {
    /// The GPFSEL1 value that gives GPIO 14 and 15 (the UART's transmit and
    /// receive pins) alternative function 5: their 3-bit function fields
    /// (bits 12 to 14 and 15 to 17) become `GPIO_FSEL_ALT5`, every other
    /// bit keeps its value.
    pub fn gpio_alt5_select(gpfsel1: u32) -> (r: u32)
        ensures
            r % 0x1000 == gpfsel1 % 0x1000,
            (r / 0x1000) % 8 == GPIO_FSEL_ALT5,
            (r / 0x8000) % 8 == GPIO_FSEL_ALT5,
            r / 0x40000 == gpfsel1 / 0x40000,
    {
        let mut v = gpfsel1;
        v = v & !((7u32 << 12u32) | (7u32 << 15u32));
        v = v | ((2u32 << 12u32) | (2u32 << 15u32));
        assert(v % 0x1000 == gpfsel1 % 0x1000 && (v / 0x1000) % 8 == 2 && (v / 0x8000) % 8 == 2 && v
            / 0x40000 == gpfsel1 / 0x40000) by (bit_vector)
            requires
                v == (gpfsel1 & !((7u32 << 12u32) | (7u32 << 15u32))) | ((2u32 << 12u32) | (2u32 << 15u32)),
        ;
        v
    }

    /// The AUXENB value with the mini UART enabled (bit 0 set, the other
    /// bits kept).
    pub fn mini_uart_enabled(auxenb: u32) -> (r: u32)
        ensures
            r % 2 == 1,
            r / 2 == auxenb / 2,
    {
        let r = auxenb | 1u32;
        assert(r % 2 == 1 && r / 2 == auxenb / 2) by (bit_vector)
            requires
                r == auxenb | 1u32,
        ;
        r
    }

    /// The bytes written to the UART for the text `s`.
    pub fn write_str(s: &str) -> (r: Vec<u8>)
        ensures
            r@ == wire(s.spec_bytes()),
    {
        let bytes = s.as_bytes();
        let mut out: Vec<u8> = Vec::new();
        let mut i: usize = 0;
        while i < bytes.len()
            invariant
                i <= bytes@.len(),
                out@ == wire(bytes@.subrange(0, i as int)),
            decreases bytes@.len() - i,
        {
            let b = bytes[i];
            assert(bytes@.subrange(0, i + 1).drop_last() =~= bytes@.subrange(0, i as int));
            if b == NL {
                out.push(CR);
            }
            out.push(b);
            i = i + 1;
        }
        assert(bytes@.subrange(0, i as int) =~= bytes@);
        out
    }
}


/// A single byte goes out as itself, except a line feed (10), which goes
/// out as carriage return (13) and line feed.
pub proof fn lemma_wire_byte(b: u8)
    ensures
        wire(seq![b]) == if b == 10 {
            seq![13u8, 10u8]
        } else {
            seq![b]
        },
{
    assert(seq![b].drop_last() =~= Seq::<u8>::empty());
    assert(seq![b].last() == b);
    assert(wire(Seq::<u8>::empty()) == Seq::<u8>::empty());
    assert(wire(seq![b]) == if b == NL {
        wire(Seq::<u8>::empty()).push(CR).push(NL)
    } else {
        wire(Seq::<u8>::empty()).push(b)
    });
    if b == 10 {
        assert(Seq::<u8>::empty().push(13u8).push(10u8) =~= seq![13u8, 10u8]);
    } else {
        assert(Seq::<u8>::empty().push(b) =~= seq![b]);
    }
}

/// Text is sent piece by piece: the bytes for `a` followed by `b` are the
/// bytes for `a` followed by the bytes for `b`.
pub proof fn lemma_wire_append(a: Seq<u8>, b: Seq<u8>)
    ensures
        wire(a + b) == wire(a) + wire(b),
    decreases b.len(),
{
    if b.len() == 0 {
        assert(a + b =~= a);
        assert(wire(a) + wire(b) =~= wire(a));
    } else {
        lemma_wire_append(a, b.drop_last());
        assert((a + b).drop_last() =~= a + b.drop_last());
        assert((a + b).last() == b.last());
        if b.last() == NL {
            assert(wire(a) + wire(b) =~= (wire(a) + wire(b.drop_last())).push(CR).push(NL));
        } else {
            assert(wire(a) + wire(b) =~= (wire(a) + wire(b.drop_last())).push(b.last()));
        }
    }
}

/// Text without line feeds is sent unchanged: every byte, in order, and
/// nothing else.
pub proof fn lemma_wire_plain_text(s: Seq<u8>)
    requires
        forall|i: int| 0 <= i < s.len() ==> #[trigger] s[i] != 10,
    ensures
        wire(s) == s,
    decreases s.len(),
{
    if s.len() > 0 {
        let d = s.drop_last();
        assert forall|i: int| 0 <= i < d.len() implies #[trigger] d[i] != 10 by {
            assert(d[i] == s[i]);
        }
        lemma_wire_plain_text(d);
        assert(s.last() == s[s.len() - 1]);
        assert(d.push(s.last()) =~= s);
    }
}

} // verus!

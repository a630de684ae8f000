use vstd::prelude::*;

verus! {

/// Line feed.
pub const NL: u8 = 10;

/// Carriage return.
pub const CR: u8 = 13;

/// What reading the raw byte `raw` from the serial line gives: a carriage
/// return (the Enter key) becomes a line feed, a line feed is skipped,
/// any other byte is itself. The delivered byte is also echoed back.
pub open spec fn getch_spec(raw: u8) -> Option<u8> {
    if raw == CR {
        Some(NL)
    } else if raw == NL {
        None
    } else {
        Some(raw)
    }
}

/// The characters delivered for the raw bytes `raw`.
pub open spec fn cooked(raw: Seq<u8>) -> Seq<u8>
    decreases raw.len(),
{
    if raw.len() == 0 {
        Seq::empty()
    } else {
        match getch_spec(raw.last()) {
            Some(c) => cooked(raw.drop_last()).push(c),
            None => cooked(raw.drop_last()),
        }
    }
}

/// `r` is the length of the line read from characters `chars` into a
/// buffer of `n` bytes: reading stops after a line feed, when the buffer
/// is full, or when the characters run out.
pub open spec fn line_length(n: int, chars: Seq<u8>, r: int) -> bool {
    &&& 0 <= r <= n
    &&& r <= chars.len()
    &&& forall|j: int| 0 <= j < r - 1 ==> #[trigger] chars[j] != NL
    &&& (r == n || r == chars.len() || (r > 0 && chars[r - 1] == NL))
}

/// Converts one raw byte from the serial line (see `getch_spec`).
pub fn getch(raw: u8) -> (r: Option<u8>)
    ensures
        r == getch_spec(raw),
{
    if raw == CR {
        Some(NL)
    } else if raw == NL {
        None
    } else {
        Some(raw)
    }
}

/// Stores character `c` at position `r` of a line being read; returns
/// whether the line is complete (a line feed, or the buffer is full).
pub fn getline_push(buf: &mut [u8], r: usize, c: u8) -> (done: bool)
    requires
        r < old(buf)@.len(),
    ensures
        final(buf)@ == old(buf)@.update(r as int, c),
        done == (c == NL || r + 1 == old(buf)@.len()),
{
    buf[r] = c;
    c == NL || r + 1 == buf.len()
}

proof fn lemma_cooked_prefix(raw: Seq<u8>, j: int)
    requires
        0 <= j <= raw.len(),
    ensures
        cooked(raw.subrange(0, j)).len() <= cooked(raw).len(),
        cooked(raw.subrange(0, j)) == cooked(raw).subrange(0, cooked(raw.subrange(0, j)).len() as int),
    decreases raw.len(),
{
    if j == raw.len() {
        assert(raw.subrange(0, j) =~= raw);
    } else {
        lemma_cooked_prefix(raw.drop_last(), j);
        assert(raw.drop_last().subrange(0, j) =~= raw.subrange(0, j));
        assert(cooked(raw) == match getch_spec(raw.last()) {
            Some(c) => cooked(raw.drop_last()).push(c),
            None => cooked(raw.drop_last()),
        });
        let a = cooked(raw.subrange(0, j));
        let b = cooked(raw.drop_last());
        assert(a =~= cooked(raw).subrange(0, a.len() as int)) by {
            assert forall|k: int| 0 <= k < a.len() implies a[k] == cooked(raw)[k] by {
                assert(a[k] == b[k]);
            }
        }
    }
}

/// Reads a line into `buf` from the raw bytes `raw` of the serial line:
/// each raw byte is converted as `getch` does, and the characters are
/// stored until a line feed, a full buffer, or the end of `raw`. Returns
/// the number of bytes stored, and the number of raw bytes consumed: the
/// raw bytes up to the one that completed the line, or all of them when
/// the line is not complete. The rest stays for the next read.
pub fn getline(buf: &mut [u8], raw: &[u8]) -> (res: (usize, usize))
    ensures
        ({
            let (r, consumed) = res;
            let n = old(buf)@.len() as int;
            &&& consumed <= raw@.len()
            &&& cooked(raw@.subrange(0, consumed as int)) == cooked(raw@).subrange(0, r as int)
            &&& consumed < raw@.len() ==> {
                &&& (r == n || (r > 0 && cooked(raw@)[r - 1] == NL))
                &&& ((r == 0 && consumed == 0) || (consumed > 0 && getch_spec(raw@[consumed - 1]) is Some))
            }
        }),
        line_length(old(buf)@.len() as int, cooked(raw@), res.0 as int),
        final(buf)@.len() == old(buf)@.len(),
        final(buf)@.subrange(0, res.0 as int) == cooked(raw@).subrange(0, res.0 as int),
        final(buf)@.subrange(res.0 as int, final(buf)@.len() as int) == old(buf)@.subrange(
            res.0 as int,
            old(buf)@.len() as int,
        ),
{
    let n = buf.len();
    let mut r: usize = 0;
    let mut j: usize = 0;
    if n == 0 {
        proof {
            assert(final(buf)@.subrange(0, 0) =~= cooked(raw@).subrange(0, 0));
            assert(raw@.subrange(0, 0) =~= Seq::<u8>::empty());
            assert(cooked(raw@).subrange(0, 0) =~= Seq::<u8>::empty());
        }
        return (0, 0);
    }
    while j < raw.len()
        invariant
            n == buf@.len(),
            n == old(buf)@.len(),
            n > 0,
            j <= raw@.len(),
            r < n,
            cooked(raw@.subrange(0, j as int)).len() == r,
            buf@.subrange(0, r as int) == cooked(raw@.subrange(0, j as int)),
            buf@.subrange(r as int, n as int) == old(buf)@.subrange(r as int, n as int),
            forall|k: int| 0 <= k < r ==> #[trigger] buf@[k] != NL,
        decreases raw@.len() - j,
    {
        let ghost prev = buf@;
        let c_opt = getch(raw[j]);
        assert(raw@.subrange(0, j + 1).drop_last() =~= raw@.subrange(0, j as int));
        j = j + 1;
        match c_opt {
            Some(c) => {
                assert(cooked(raw@.subrange(0, j as int)) == cooked(raw@.subrange(0, j - 1)).push(c));
                let done = getline_push(buf, r, c);
                assert(buf@.subrange(0, r + 1) =~= prev.subrange(0, r as int).push(c));
                assert(buf@.subrange(r + 1, n as int) =~= prev.subrange(r + 1, n as int));
                assert(buf@.subrange(r + 1, n as int) =~= old(buf)@.subrange(r + 1, n as int)) by {
                    assert forall|k: int| 0 <= k < n - r - 1 implies #[trigger] buf@.subrange(r + 1, n as int)[k]
                        == old(buf)@.subrange(r + 1, n as int)[k] by {
                        assert(prev.subrange(r as int, n as int)[k + 1] == old(buf)@.subrange(r as int, n as int)[k + 1]);
                    }
                }
                r = r + 1;
                if done {
                    proof {
                        lemma_cooked_prefix(raw@, j as int);
                        let full = cooked(raw@);
                        assert(full.subrange(0, r as int) == cooked(raw@.subrange(0, j as int)));
                        assert(buf@.subrange(0, r as int) == full.subrange(0, r as int));
                        assert forall|k: int| 0 <= k < r - 1 implies #[trigger] full[k] != NL by {
                            assert(full[k] == full.subrange(0, r as int)[k]);
                            assert(buf@[k] == buf@.subrange(0, r as int)[k]);
                        }
                        assert(full[r - 1] == full.subrange(0, r as int)[r - 1]);
                        assert(buf@[r - 1] == c);
                    }
                    return (r, j);
                }
            },
                None => {
                assert(cooked(raw@.subrange(0, j as int)) == cooked(raw@.subrange(0, j - 1)));
            },
        }
    }
    proof {
        assert(raw@.subrange(0, j as int) =~= raw@);
        assert forall|k: int| 0 <= k < r - 1 implies #[trigger] cooked(raw@)[k] != NL by {
            assert(cooked(raw@)[k] == buf@.subrange(0, r as int)[k]);
        }
        assert(cooked(raw@).subrange(0, r as int) =~= cooked(raw@));
    }
    (r, j)
}


/// Reading a raw byte: Enter (carriage return, 13) gives a line feed (10),
/// a line feed is skipped, and every other byte is delivered unchanged.
pub proof fn lemma_getch_bytes(raw: u8)
    ensures
        raw != 13 && raw != 10 ==> getch_spec(raw) == Some(raw),
        getch_spec(13) == Some(10u8),
        getch_spec(10) is None,
{
}

/// Reading two stretches of raw bytes delivers the characters of the first
/// followed by those of the second.
pub proof fn lemma_cooked_append(a: Seq<u8>, b: Seq<u8>)
    ensures
        cooked(a + b) == cooked(a) + cooked(b),
    decreases b.len(),
{
    if b.len() == 0 {
        assert(a + b =~= a);
        assert(cooked(a) + cooked(b) =~= cooked(a));
    } else {
        lemma_cooked_append(a, b.drop_last());
        assert((a + b).drop_last() =~= a + b.drop_last());
        assert((a + b).last() == b.last());
        match getch_spec(b.last()) {
            Some(c) => {
                assert(cooked(a) + cooked(b) =~= (cooked(a) + cooked(b.drop_last())).push(c));
            },
            None => {},
        }
    }
}

/// Raw bytes without carriage returns and line feeds are delivered exactly
/// as they were typed.
pub proof fn lemma_cooked_plain_text(raw: Seq<u8>)
    requires
        forall|i: int| 0 <= i < raw.len() ==> #[trigger] raw[i] != 13 && raw[i] != 10,
    ensures
        cooked(raw) == raw,
    decreases raw.len(),
{
    if raw.len() > 0 {
        let d = raw.drop_last();
        assert forall|i: int| 0 <= i < d.len() implies #[trigger] d[i] != 13 && d[i] != 10 by {
            assert(d[i] == raw[i]);
        }
        lemma_cooked_plain_text(d);
        assert(raw.last() == raw[raw.len() - 1]);
        assert(d.push(raw.last()) =~= raw);
    }
}

} // verus!

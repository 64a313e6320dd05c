use vstd::prelude::*;

verus! {

/// Columns a character takes: one for ASCII, two for anything else.
pub open spec fn char_width(c: char) -> nat {
    if (c as u32) < 0x80 {
        1
    } else {
        2
    }
}

/// Columns a string takes.
pub open spec fn width_spec(s: Seq<char>) -> nat
    decreases s.len(),
{
    if s.len() == 0 {
        0
    } else {
        width_spec(s.drop_last()) + char_width(s.last())
    }
}

proof fn lemma_width_bound(s: Seq<char>)
    ensures
        width_spec(s) <= 2 * s.len(),
    decreases s.len(),
{
    if s.len() > 0 {
        lemma_width_bound(s.drop_last());
    }
}

/// The columns `s` takes on screen, wide characters counting two.
pub fn display_width(s: &str) -> (r: usize)
    requires
        s@.len() <= usize::MAX / 2,
    ensures
        r == width_spec(s@),
{
    let len = s.unicode_len();
    let mut w: usize = 0;
    let mut i: usize = 0;
    while i < len
        invariant
            len == s@.len(),
            len <= usize::MAX / 2,
            i <= len,
            w == width_spec(s@.subrange(0, i as int)),
        decreases len - i,
    {
        let ghost next = s@.subrange(0, i + 1);
        assert(next.drop_last() =~= s@.subrange(0, i as int));
        proof {
            lemma_width_bound(s@.subrange(0, i as int));
        }
        let c = s.get_char(i);
        if (c as u32) < 0x80 {
            w = w + 1;
        } else {
            w = w + 2;
        }
        i = i + 1;
    }
    assert(s@.subrange(0, len as int) =~= s@);
    w
}

/// `s` followed by spaces up to `target` columns; unchanged when it is as wide already.
pub open spec fn padded(s: Seq<char>, target: nat) -> Seq<char> {
    if width_spec(s) >= target {
        s
    } else {
        s + Seq::new((target - width_spec(s)) as nat, |i: int| ' ')
    }
}

/// Pads `s` with spaces to `target_width` columns.
pub fn pad_string(s: &str, target_width: usize) -> (r: String)
    requires
        s@.len() <= usize::MAX / 2,
    ensures
        r@ == padded(s@, target_width as nat),
{
    let w = display_width(s);
    let mut out = String::from_str(s);
    if w < target_width {
        let pad = target_width - w;
        let mut k: usize = 0;
        while k < pad
            invariant
                k <= pad,
                out@ == s@ + Seq::new(k as nat, |i: int| ' '),
            decreases pad - k,
        {
            let space = " ";
            proof {
                reveal_strlit(" ");
            }
            assert(space@ =~= seq![' ']);
            out.append(space);
            k = k + 1;
            assert(out@ =~= s@ + Seq::new(k as nat, |i: int| ' '));
        }
    }
    out
}

} // verus!

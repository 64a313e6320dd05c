use vstd::prelude::*;

verus! {

/// The first port handed out, and the one handed out after a wrap.
pub const PORT_FLOOR: u16 = 10800;

/// The largest port handed out before the allocator wraps to the floor.
pub const PORT_CEILING: u16 = 60000;

/// Issues local ports for helper processes: increasing from the floor, back to
/// the floor once the ceiling would be passed.
pub struct PortAllocator {
    next: u16,
}

/// One call of the allocator from counter value `c`: the port returned and the
/// counter value afterwards.
pub open spec fn alloc_step(c: nat) -> (nat, nat) {
    if c > PORT_CEILING {
        (PORT_FLOOR as nat, (PORT_FLOOR + 1) as nat)
    } else {
        (c, c + 1)
    }
}

/// The ports handed out by `n` calls starting from counter value `c`.
pub open spec fn ports_issued(c: nat, n: nat) -> Seq<nat>
    decreases n,
{
    if n == 0 {
        Seq::empty()
    } else {
        seq![alloc_step(c).0] + ports_issued(alloc_step(c).1, (n - 1) as nat)
    }
}

impl View for PortAllocator {
    type V = nat;

    /// The counter: the port the next call returns unless it wraps.
    closed spec fn view(&self) -> nat {
        self.next as nat
    }
}

impl PortAllocator {
    pub open spec fn wf(&self) -> bool {
        PORT_FLOOR <= self@ <= PORT_CEILING + 1
    }

    /// A fresh allocator whose first call returns the floor.
    pub fn new() -> (r: PortAllocator)
        ensures
            r.wf(),
            r@ == PORT_FLOOR,
    {
        PortAllocator { next: PORT_FLOOR }
    }

    /// Makes the next call return the floor.
    pub fn reset(&mut self)
        ensures
            final(self).wf(),
            final(self)@ == PORT_FLOOR,
    {
        self.next = PORT_FLOOR;
    }

    /// Returns the next port and advances the counter.
    pub fn next_port(&mut self) -> (r: u16)
        requires
            old(self).wf(),
        ensures
            final(self).wf(),
            (r as nat, final(self)@) == alloc_step(old(self)@),
            PORT_FLOOR <= r <= PORT_CEILING,
    {
        if self.next > PORT_CEILING {
            self.next = PORT_FLOOR + 1;
            PORT_FLOOR
        } else {
            let port = self.next;
            self.next = port + 1;
            port
        }
    }
}

/// Makes the next allocation return the floor; called at the start of a batch.
pub fn reset_port_counter(ports: &mut PortAllocator)
    ensures
        final(ports).wf(),
        final(ports)@ == PORT_FLOOR,
{
    ports.reset();
}

/// Allocates one port for a probe's helper process.
pub fn get_test_port(ports: &mut PortAllocator) -> (r: u16)
    requires
        old(ports).wf(),
    ensures
        final(ports).wf(),
        (r as nat, final(ports)@) == alloc_step(old(ports)@),
        PORT_FLOOR <= r <= PORT_CEILING,
{
    ports.next_port()
}

/// Sequential allocation without a reset: every port lies between the floor and
/// the ceiling, and each port is followed by the next integer, except that the
/// ceiling is followed by the floor. After a reset the first port is the floor.
pub proof fn lemma_ports_increase_then_wrap(c: nat, n: nat)
    requires
        PORT_FLOOR <= c <= PORT_CEILING + 1,
    ensures
        ports_issued(c, n).len() == n,
        forall|i: int| 0 <= i < n ==> PORT_FLOOR <= #[trigger] ports_issued(c, n)[i] <= PORT_CEILING,
        forall|i: int|
            0 <= i < n - 1 ==> #[trigger] ports_issued(c, n)[i + 1] == if ports_issued(c, n)[i]
                == PORT_CEILING {
                PORT_FLOOR as nat
            } else {
                ports_issued(c, n)[i] + 1
            },
        n > 0 && c == PORT_FLOOR ==> ports_issued(c, n)[0] == PORT_FLOOR,
    decreases n,
{
    if n > 0 {
        let s = alloc_step(c);
        lemma_ports_increase_then_wrap(s.1, (n - 1) as nat);
        let rest = ports_issued(s.1, (n - 1) as nat);
        let all = ports_issued(c, n);
        assert(all == seq![s.0] + rest);
        assert forall|i: int| 0 <= i < n - 1 implies #[trigger] all[i + 1] == if all[i]
            == PORT_CEILING {
            PORT_FLOOR as nat
        } else {
            all[i] + 1
        } by {
            if i > 0 {
                assert(all[i] == rest[i - 1]);
                assert(all[i + 1] == rest[(i - 1) + 1]);
            } else {
                let t = alloc_step(s.1);
                assert(rest == seq![t.0] + ports_issued(t.1, (n - 2) as nat));
                assert(all[1] == rest[0]);
            }
        }
        assert forall|i: int| 0 <= i < n implies PORT_FLOOR <= #[trigger] all[i] <= PORT_CEILING by {
            if i > 0 {
                assert(all[i] == rest[i - 1]);
            }
        }
    }
}

} // verus!

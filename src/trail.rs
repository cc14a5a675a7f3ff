use vstd::prelude::*;
use crate::arena::Handle;

verus! {

/// A transient visual left by a shot, faded out over its lifetime
/// (milliseconds).
#[derive(Clone, Copy, PartialEq, Eq, Structural, Debug)]
pub struct ShotTrail {
    pub node: Handle,
    pub lifetime: u32,
    pub max_lifetime: u32,
}

/// What one update does to a trail's visual: the alpha to show and whether
/// the node is to be removed.
#[derive(Clone, Copy, PartialEq, Eq, Structural, Debug)]
pub struct TrailFade {
    pub node: Handle,
    pub alpha: u8,
    pub removed: bool,
}

/// A trail aged by `dt` milliseconds, its lifetime capped at the maximum.
pub open spec fn aged(t: ShotTrail, dt: u32) -> ShotTrail {
    ShotTrail {
        lifetime: if t.lifetime as int + dt as int >= t.max_lifetime as int {
            t.max_lifetime
        } else {
            (t.lifetime + dt) as u32
        },
        ..t
    }
}

/// The linear fade `255 * (1 - lifetime / max_lifetime)`, rounded down.
pub open spec fn alpha_of(t: ShotTrail) -> int {
    if t.max_lifetime == 0 || t.lifetime >= t.max_lifetime {
        0
    } else {
        (255 * (t.max_lifetime - t.lifetime)) / t.max_lifetime as int
    }
}

pub open spec fn is_alive(t: ShotTrail) -> bool {
    t.lifetime < t.max_lifetime
}

pub open spec fn fade_of(t: ShotTrail) -> TrailFade {
    TrailFade { node: t.node, alpha: alpha_of(t) as u8, removed: !is_alive(t) }
}

/// The trails that survive aging `s` by `dt`, in order.
pub open spec fn survivors(s: Seq<ShotTrail>, dt: u32) -> Seq<ShotTrail>
    decreases s.len(),
{
    if s.len() == 0 {
        Seq::empty()
    } else {
        let t = aged(s.last(), dt);
        if is_alive(t) {
            survivors(s.drop_last(), dt).push(t)
        } else {
            survivors(s.drop_last(), dt)
        }
    }
}

impl ShotTrail {
    pub fn new(node: Handle, max_lifetime: u32) -> (r: ShotTrail)
        ensures
            r == (ShotTrail { node, lifetime: 0, max_lifetime }),
    {
        ShotTrail { node, lifetime: 0, max_lifetime }
    }
}

/// The live shot trails of a level.
pub struct ShotTrailContainer {
    container: Vec<ShotTrail>,
}

impl View for ShotTrailContainer {
    type V = Seq<ShotTrail>;

    closed spec fn view(&self) -> Seq<ShotTrail> {
        self.container@
    }
}

fn fade(t: ShotTrail) -> (r: TrailFade)
    ensures
        r == fade_of(t),
{
    let alpha: u32 = if t.max_lifetime == 0 || t.lifetime >= t.max_lifetime {
        0
    } else {
        let remaining = (t.max_lifetime - t.lifetime) as u64;
        assert(255 * remaining <= 255 * (u32::MAX as int));
        let a = 255 * remaining / t.max_lifetime as u64;
        assert(a <= 255) by (nonlinear_arith)
            requires
                a == 255 * remaining / t.max_lifetime as int,
                remaining <= t.max_lifetime,
                t.max_lifetime > 0;
        a as u32
    };
    TrailFade { node: t.node, alpha: alpha as u8, removed: t.lifetime >= t.max_lifetime }
}

impl ShotTrailContainer {
    pub fn new() -> (r: ShotTrailContainer)
        ensures
            r@ == Seq::<ShotTrail>::empty(),
    {
        ShotTrailContainer { container: Vec::new() }
    }

    pub fn add(&mut self, trail: ShotTrail)
        ensures
            final(self)@ == old(self)@.push(trail),
    {
        self.container.push(trail);
    }

    /// Ages every trail by `dt` milliseconds and drops those whose lifetime
    /// is spent. Returns, for each trail in order, the alpha to show and
    /// whether its node is to be removed.
    pub fn update(&mut self, dt: u32) -> (r: Vec<TrailFade>)
        ensures
            final(self)@ == survivors(old(self)@, dt),
            r@ == old(self)@.map_values(|t: ShotTrail| fade_of(aged(t, dt))),
    {
        let n = self.container.len();
        let mut kept: Vec<ShotTrail> = Vec::new();
        let mut fades: Vec<TrailFade> = Vec::new();
        let mut i: usize = 0;
        while i < n
            invariant
                n == old(self)@.len(),
                self.container@ == old(self)@,
                i <= n,
                kept@ == survivors(old(self)@.take(i as int), dt),
                fades@ == old(self)@.take(i as int).map_values(|t: ShotTrail| fade_of(aged(t, dt))),
            decreases n - i,
        {
            let t = self.container[i];
            let lifetime = if t.lifetime as u64 + dt as u64 >= t.max_lifetime as u64 {
                t.max_lifetime
            } else {
                t.lifetime + dt
            };
            let a = ShotTrail { node: t.node, lifetime, max_lifetime: t.max_lifetime };
            assert(a == aged(t, dt));
            proof {
                let prefix = old(self)@.take(i as int + 1);
                assert(prefix.drop_last() =~= old(self)@.take(i as int));
                assert(prefix.last() == t);
            }
            fades.push(fade(a));
            if a.lifetime < a.max_lifetime {
                kept.push(a);
            }
            i = i + 1;
            assert(fades@ =~= old(self)@.take(i as int).map_values(|t: ShotTrail| fade_of(aged(t, dt))));
        }
        assert(old(self)@.take(n as int) =~= old(self)@);
        self.container = kept;
        fades
    }
}

} // verus!

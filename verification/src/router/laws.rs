//! What registration makes supported, over any sequence of registrations.
use vstd::prelude::*;

use super::ModelRouter;

verus! {

/// The capability a handle is registered for.
pub enum Capability {
    Chat,
    Image,
    Audio,
}

/// One registration: model names for one capability.
pub struct Registration {
    pub capability: Capability,
    pub names: Set<Seq<char>>,
}

/// The model names of `names`.
pub open spec fn names_of(names: Seq<&str>) -> Set<Seq<char>> {
    Set::new(|n: Seq<char>| exists|i: int| 0 <= i < names.len() && names[i]@ == n)
}

/// The model names that `router` supports for `capability`.
pub open spec fn models_of<C, I, A>(router: ModelRouter<C, I, A>, capability: Capability) -> Set<
    Seq<char>,
> {
    match capability {
        Capability::Chat => router.chat_models().dom(),
        Capability::Image => router.image_models().dom(),
        Capability::Audio => router.audio_models().dom(),
    }
}

/// `after` is `before` with the names of `registration` supported for its
/// capability, and every other capability as it was.
pub open spec fn registers<C, I, A>(
    before: ModelRouter<C, I, A>,
    after: ModelRouter<C, I, A>,
    registration: Registration,
) -> bool {
    forall|c: Capability|
        #[trigger] models_of(after, c) == if c == registration.capability {
            models_of(before, c).union(registration.names)
        } else {
            models_of(before, c)
        }
}

/// Registration is keyed by capability: after a router starts empty and
/// goes through any sequence of registrations, it supports model `m` for a
/// capability exactly when some registration for that capability named `m`;
/// registering `m` for another capability never makes it supported.
pub proof fn lemma_supported_exactly_when_registered<C, I, A>(
    routers: Seq<ModelRouter<C, I, A>>,
    registrations: Seq<Registration>,
)
    requires
        routers.len() == registrations.len() + 1,
        routers[0].chat_models() == Map::<Seq<char>, C>::empty(),
        routers[0].image_models() == Map::<Seq<char>, I>::empty(),
        routers[0].audio_models() == Map::<Seq<char>, A>::empty(),
        forall|i: int|
            0 <= i < registrations.len() ==> #[trigger] registers(
                routers[i],
                routers[i + 1],
                registrations[i],
            ),
    ensures
        forall|c: Capability, m: Seq<char>|
            #[trigger] models_of(routers.last(), c).contains(m) <==> exists|i: int|
                0 <= i < registrations.len() && registrations[i].capability == c
                    && #[trigger] registrations[i].names.contains(m),
    decreases registrations.len(),
{
    let last = routers.last();
    if registrations.len() == 0 {
        assert forall|c: Capability, m: Seq<char>|
            #[trigger] models_of(last, c).contains(m) <==> exists|i: int|
                0 <= i < registrations.len() && registrations[i].capability == c
                    && #[trigger] registrations[i].names.contains(m) by {
            match c {
                Capability::Chat => {},
                Capability::Image => {},
                Capability::Audio => {},
            }
        }
    } else {
        let n = registrations.len() - 1;
        let rs = routers.drop_last();
        let regs = registrations.drop_last();
        assert forall|i: int| 0 <= i < regs.len() implies #[trigger] registers(
            rs[i],
            rs[i + 1],
            regs[i],
        ) by {
            assert(registers(routers[i], routers[i + 1], registrations[i]));
        }
        lemma_supported_exactly_when_registered(rs, regs);
        assert(rs.last() == routers[n]);
        assert(registers(routers[n], routers[n + 1], registrations[n]));
        assert forall|c: Capability, m: Seq<char>|
            #[trigger] models_of(last, c).contains(m) <==> exists|i: int|
                0 <= i < registrations.len() && registrations[i].capability == c
                    && #[trigger] registrations[i].names.contains(m) by {
            assert(models_of(rs.last(), c).contains(m) <==> exists|i: int|
                0 <= i < regs.len() && regs[i].capability == c && #[trigger] regs[i].names.contains(m));
            if exists|i: int|
                0 <= i < registrations.len() && registrations[i].capability == c
                    && #[trigger] registrations[i].names.contains(m) {
                let i = choose|i: int|
                    0 <= i < registrations.len() && registrations[i].capability == c
                        && #[trigger] registrations[i].names.contains(m);
                if i < n {
                    assert(regs[i] == registrations[i]);
                }
            }
            if models_of(rs.last(), c).contains(m) {
                let i = choose|i: int|
                    0 <= i < regs.len() && regs[i].capability == c && #[trigger] regs[i].names.contains(m);
                assert(registrations[i] == regs[i]);
            }
        }
    }
}

} // verus!

//! The decoders that a store has made, by the identifier of their key.

use vstd::prelude::*;
use crate::token::decoder::DecoderView;
use crate::token::decoder::JwtDecoder;

verus! {

/// Decoders by key identifier.  Nothing is ever removed.
pub struct KeyCache {
    decoders: Vec<JwtDecoder>,
}

/// The decoders by their key identifiers.  Where two have the same, the one
/// that stands first counts.
pub open spec fn by_kid(decoders: Seq<JwtDecoder>) -> Map<Seq<char>, DecoderView>
    decreases decoders.len(),
{
    if decoders.len() == 0 {
        Map::empty()
    } else {
        by_kid(decoders.drop_first()).insert(decoders[0]@.kid, decoders[0]@)
    }
}

/// A decoder stands under its identifier if none before it has the same.
proof fn first_counts(decoders: Seq<JwtDecoder>, at: int)
    requires
        0 <= at < decoders.len(),
        forall|j: int| 0 <= j < at ==> decoders[j]@.kid != decoders[at]@.kid,
    ensures
        by_kid(decoders).contains_key(decoders[at]@.kid),
        by_kid(decoders)[decoders[at]@.kid] == decoders[at]@,
    decreases decoders.len(),
{
    if at > 0 {
        let rest = decoders.drop_first();
        assert(rest[at - 1] == decoders[at]);
        let kid = decoders[at]@.kid;
        assert forall|j: int| 0 <= j < at - 1 implies rest[j]@.kid != kid by {
            assert(rest[j] == decoders[j + 1]);
        }
        first_counts(rest, at - 1);
    }
}

/// Nothing stands under an identifier that no decoder has.
proof fn none_counts(decoders: Seq<JwtDecoder>, kid: Seq<char>)
    requires
        forall|j: int| 0 <= j < decoders.len() ==> decoders[j]@.kid != kid,
    ensures
        !by_kid(decoders).contains_key(kid),
    decreases decoders.len(),
{
    if decoders.len() > 0 {
        let rest = decoders.drop_first();
        assert forall|j: int| 0 <= j < rest.len() implies rest[j]@.kid != kid by {
            assert(rest[j] == decoders[j + 1]);
        }
        none_counts(rest, kid);
    }
}

/// Replacing the first decoder of an identifier puts the new one under it
/// and leaves the rest as it was.
proof fn replaced(decoders: Seq<JwtDecoder>, at: int, decoder: JwtDecoder)
    requires
        0 <= at < decoders.len(),
        decoders[at]@.kid == decoder@.kid,
        forall|j: int| 0 <= j < at ==> decoders[j]@.kid != decoder@.kid,
    ensures
        by_kid(decoders.update(at, decoder)) == by_kid(decoders).insert(decoder@.kid, decoder@),
    decreases decoders.len(),
{
    let after = decoders.update(at, decoder);
    if at == 0 {
        assert(after.drop_first() =~= decoders.drop_first());
    } else {
        let rest = decoders.drop_first();
        assert(rest[at - 1] == decoders[at]);
        assert forall|j: int| 0 <= j < at - 1 implies rest[j]@.kid != decoder@.kid by {
            assert(rest[j] == decoders[j + 1]);
        }
        replaced(rest, at - 1, decoder);
        assert(after.drop_first() =~= rest.update(at - 1, decoder));
        assert(after[0] == decoders[0]);
    }
    assert(by_kid(after) =~= by_kid(decoders).insert(decoder@.kid, decoder@));
}

/// Adding a decoder whose identifier is new puts it under that identifier
/// and leaves the rest as it was.
proof fn added(decoders: Seq<JwtDecoder>, decoder: JwtDecoder)
    requires
        forall|j: int| 0 <= j < decoders.len() ==> decoders[j]@.kid != decoder@.kid,
    ensures
        by_kid(decoders.push(decoder)) == by_kid(decoders).insert(decoder@.kid, decoder@),
    decreases decoders.len(),
{
    let after = decoders.push(decoder);
    if decoders.len() == 0 {
        assert(after.drop_first() =~= decoders);
    } else {
        let rest = decoders.drop_first();
        assert forall|j: int| 0 <= j < rest.len() implies rest[j]@.kid != decoder@.kid by {
            assert(rest[j] == decoders[j + 1]);
        }
        added(rest, decoder);
        assert(after.drop_first() =~= rest.push(decoder));
        assert(after[0] == decoders[0]);
    }
    assert(by_kid(after) =~= by_kid(decoders).insert(decoder@.kid, decoder@));
}

/// Each decoder stands under the identifier of its own key.
proof fn keys_are_kids(decoders: Seq<JwtDecoder>)
    ensures
        forall|kid: Seq<char>| #[trigger]
            by_kid(decoders).contains_key(kid) ==> by_kid(decoders)[kid].kid == kid,
    decreases decoders.len(),
{
    if decoders.len() > 0 {
        keys_are_kids(decoders.drop_first());
    }
}

impl View for KeyCache {
    type V = Map<Seq<char>, DecoderView>;

    closed spec fn view(&self) -> Map<Seq<char>, DecoderView> {
        by_kid(self.decoders@)
    }
}

impl KeyCache {
    /// A cache that holds nothing.
    pub fn new() -> (r: KeyCache)
        ensures
            r@ == Map::<Seq<char>, DecoderView>::empty(),
    {
        KeyCache { decoders: Vec::new() }
    }

    /// Whatever has been put into a cache, each decoder in it stands under
    /// the identifier of its own key.
    pub proof fn keys_name_their_decoders(&self)
        ensures
            forall|kid: Seq<char>| #[trigger] self@.contains_key(kid) ==> self@[kid].kid == kid,
    {
        keys_are_kids(self.decoders@);
    }

    /// Where the first decoder for `kid` stands, or how many decoders there
    /// are where there is none.
    fn place(&self, kid: &String) -> (r: usize)
        ensures
            r <= self.decoders@.len(),
            r < self.decoders@.len() ==> self.decoders@[r as int]@.kid == kid@,
            forall|j: int| 0 <= j < r ==> self.decoders@[j]@.kid != kid@,
    {
        let mut i: usize = 0;
        while i < self.decoders.len()
            invariant
                i <= self.decoders@.len(),
                forall|j: int| 0 <= j < i ==> self.decoders@[j]@.kid != kid@,
            decreases self.decoders@.len() - i,
        {
            if *self.decoders[i].kid() == *kid {
                return i;
            }
            i += 1;
        }
        i
    }

    /// The decoder for the key `kid`, where one has been put.
    pub fn get(&self, kid: &String) -> (r: Option<&JwtDecoder>)
        ensures
            match r {
                Some(decoder) => self@.contains_key(kid@) && self@[kid@] == decoder@,
                None => !self@.contains_key(kid@),
            },
    {
        let at = self.place(kid);
        if at < self.decoders.len() {
            proof {
                first_counts(self.decoders@, at as int);
            }
            Some(&self.decoders[at])
        } else {
            proof {
                none_counts(self.decoders@, kid@);
            }
            None
        }
    }

    /// Puts a decoder under the identifier of its key, in place of the one
    /// that stood there, if any.
    pub fn insert(&mut self, decoder: JwtDecoder)
        ensures
            final(self)@ == old(self)@.insert(decoder@.kid, decoder@),
    {
        let at = self.place(decoder.kid());
        proof {
            if at < self.decoders@.len() {
                replaced(self.decoders@, at as int, decoder);
            } else {
                added(self.decoders@, decoder);
            }
        }
        if at < self.decoders.len() {
            self.decoders.set(at, decoder);
        } else {
            self.decoders.push(decoder);
        }
    }
}

} // verus!

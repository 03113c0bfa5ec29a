use vstd::prelude::*;

verus! {

/// The boundary record as the host sees it once the opaque byte handles have
/// been read: each field is either a null handle (`None`) or the text that
/// stood before its terminator. A value of this type carries no ownership of
/// boundary storage by itself; ownership is tracked by a [`Boundary`] ledger.
#[derive(Debug)]
pub struct RawPacket {
    pub id: Option<String>,
    pub data: Option<String>,
}

/// Mathematical image of a boundary record: the two fields, each possibly null.
#[verifier::ext_equal]
pub ghost struct PacketModel {
    pub id: Option<Seq<char>>,
    pub data: Option<Seq<char>>,
}

impl View for RawPacket {
    type V = PacketModel;

    open spec fn view(&self) -> PacketModel {
        PacketModel {
            id: match self.id {
                Option::Some(s) => Option::Some(s@),
                Option::None => Option::None,
            },
            data: match self.data {
                Option::Some(s) => Option::Some(s@),
                Option::None => Option::None,
            },
        }
    }
}

/// An owned, in-process packet: two independently owned text buffers, copied
/// out of the boundary representation at decode time and never aliasing it.
#[derive(Debug)]
pub struct SafePacket {
    pub id: String,
    pub data: String,
}

/// Mathematical image of an owned packet: both fields present.
#[verifier::ext_equal]
pub ghost struct PacketView {
    pub id: Seq<char>,
    pub data: Seq<char>,
}

impl View for SafePacket {
    type V = PacketView;

    open spec fn view(&self) -> PacketView {
        PacketView { id: self.id@, data: self.data@ }
    }
}

/// The image of an optional owned packet.
pub open spec fn view_opt(r: Option<SafePacket>) -> Option<PacketView> {
    match r {
        Option::Some(p) => Option::Some(p@),
        Option::None => Option::None,
    }
}

/// What decoding a boundary handle yields: an owned packet exactly when the
/// handle is live and neither field is null, and nothing otherwise.
pub open spec fn decode_model(m: Option<PacketModel>) -> Option<PacketView> {
    match m {
        Option::Some(pm) => match (pm.id, pm.data) {
            (Option::Some(i), Option::Some(d)) => Option::Some(PacketView { id: i, data: d }),
            _ => Option::None,
        },
        Option::None => Option::None,
    }
}

/// The host's ledger of live boundary allocations. Handle `0` is the null
/// handle and never owns storage; a materialized or adopted record gets a
/// fresh nonzero handle, and handles are never reused. A release removes the
/// record for good, so the verifier holds every caller to the ownership
/// contract: each allocation is released exactly once, and never read after.
pub struct Boundary {
    slots: Vec<Option<RawPacket>>,
}

impl Boundary {
    /// The live allocations, handle to record image.
    pub closed spec fn live(self) -> Map<int, PacketModel> {
        Map::new(
            |h: int| 1 <= h <= self.slots@.len() && self.slots@[h - 1] is Some,
            |h: int| (self.slots@[h - 1]->0)@,
        )
    }

    /// The record a handle designates, if it designates one at all.
    pub open spec fn lookup(self, h: int) -> Option<PacketModel> {
        if self.live().dom().contains(h) {
            Option::Some(self.live()[h])
        } else {
            Option::None
        }
    }

    /// A ledger with no live allocations.
    pub fn new() -> (b: Boundary)
        ensures
            b.live() == Map::<int, PacketModel>::empty(),
    {
        let b = Boundary { slots: Vec::new() };
        proof {
            assert(b.live() =~= Map::<int, PacketModel>::empty());
        }
        b
    }

    /// Allocates boundary storage for both fields, copied from the inputs,
    /// and returns the one fresh handle owning the pair. The inputs must be
    /// free of embedded terminators: text that cannot take the boundary's
    /// terminated form is an unrecoverable precondition violation, so such
    /// inputs are excluded outright. Decoding the fresh handle gives the
    /// original fields back (the round-trip law, stated on the last line).
    pub fn materialize(&mut self, id: &str, data: &str) -> (h: usize)
        requires
            !id@.contains('\0'),
            !data@.contains('\0'),
        ensures
            h != 0,
            !old(self).live().dom().contains(h as int),
            final(self).live() == old(self).live().insert(
                h as int,
                (PacketModel { id: Option::Some(id@), data: Option::Some(data@) }),
            ),
            decode_model(final(self).lookup(h as int)) == Option::Some(
                (PacketView { id: id@, data: data@ }),
            ),
    {
        let record = RawPacket { id: Some(id.to_owned()), data: Some(data.to_owned()) };
        self.adopt(record)
    }

    /// Takes a record delivered from the module side of the boundary (a
    /// non-null result handle, already read field by field) into the ledger
    /// under a fresh handle, which the host must release exactly once.
    pub fn adopt(&mut self, record: RawPacket) -> (h: usize)
        ensures
            h != 0,
            !old(self).live().dom().contains(h as int),
            final(self).live() == old(self).live().insert(h as int, record@),
    {
        let ghost m = record@;
        self.slots.push(Some(record));
        let h = self.slots.len();
        proof {
            assert(self.live() =~= old(self).live().insert(h as int, m));
        }
        h
    }

    /// Decodes a handle into an owned packet, copying both fields. Null-safe:
    /// the null handle, a handle with a null field, and a handle that owns
    /// nothing all yield no value, never a fault.
    pub fn decode(&self, h: usize) -> (r: Option<SafePacket>)
        ensures
            view_opt(r) == decode_model(self.lookup(h as int)),
            h == 0 ==> r is None,
    {
        if h == 0 || h > self.slots.len() {
            return None;
        }
        match &self.slots[h - 1] {
            None => None,
            Some(record) => match (&record.id, &record.data) {
                (Some(i), Some(d)) => Some(SafePacket { id: i.clone(), data: d.clone() }),
                _ => None,
            },
        }
    }

    /// Reclaims the allocation a handle owns. The null handle owns nothing
    /// and releasing it is a no-op that never faults; any other handle must
    /// still be live — a second release of the same handle is excluded, as
    /// the boundary contract leaves it undefined.
    pub fn release(&mut self, h: usize)
        requires
            h == 0 || old(self).live().dom().contains(h as int),
        ensures
            final(self).live() == old(self).live().remove(h as int),
            h == 0 ==> final(self).live() == old(self).live(),
    {
        if h == 0 {
            proof {
                assert(self.live() =~= old(self).live().remove(h as int));
            }
            return;
        }
        let slice = self.slots.as_mut_slice();
        slice[h - 1] = None;
        proof {
            assert(self.live() =~= old(self).live().remove(h as int));
        }
    }
}

/// Round-trip law: whatever ledger a record materialized from terminator-free
/// fields entered, and whatever fresh handle it got, decoding that handle
/// yields an owned packet whose fields are exactly the originals.
pub proof fn lemma_round_trip(before: Boundary, after: Boundary, h: int, id: Seq<char>, data: Seq<char>)
    requires
        after.live() == before.live().insert(
            h,
            (PacketModel { id: Option::Some(id), data: Option::Some(data) }),
        ),
    ensures
        decode_model(after.lookup(h)) == Option::Some((PacketView { id: id, data: data })),
{
}

} // verus!

use vstd::prelude::*;
use crate::address::Address;
use crate::error::ExchangeError;

verus! {

/// Bytes the store spends on a record's kind tag.
pub const DISCRIMINATOR_LENGTH: usize = 8;

/// Bytes of one stored account identity.
pub const PUBKEY_LENGTH: usize = 32;

/// Bytes of a synchronizer's fixed location tag.
pub const LOCATION_LENGTH: usize = 32;

/// Bytes of one stored boolean flag.
pub const BOOL_LENGTH: usize = 1;

/// Deliberate over-allocation beyond the minimum layout, so fields can be
/// added later without a migration step.
pub const RESERVED_HEADROOM: usize = 1000;

/// Bytes a synchronizer record occupies in the store, headroom included.
pub const SYNCHRONIZER_SPACE: usize = DISCRIMINATOR_LENGTH + PUBKEY_LENGTH + LOCATION_LENGTH
    + BOOL_LENGTH + RESERVED_HEADROOM;

/// Bytes the store reserves for a session's string identifier.
pub const SESSION_ID_SPACE: usize = 64;

/// Bytes a session record occupies in the store.
pub const SESSION_SPACE: usize = DISCRIMINATOR_LENGTH + SESSION_ID_SPACE + PUBKEY_LENGTH
    + BOOL_LENGTH;

/// A registered synchronizer node: its creator, an opaque location tag whose
/// meaning lies outside this program, and an activity flag.
pub struct Synchronizer {
    pub owner: Address,
    pub location: [u8; LOCATION_LENGTH],
    pub is_active: bool,
}

/// An ephemeral session: a caller-chosen identifier and a non-owning
/// reference to the synchronizer record it belongs to.
pub struct Session {
    pub id: String,
    pub synchronizer: Address,
    pub is_active: bool,
}

/// A record as the store holds it, tagged by its kind.
pub enum Record {
    Synchronizer(Synchronizer),
    Session(Session),
}

/// The synchronizer record every registration writes: active from the
/// start, owned by its requester.
pub open spec fn new_synchronizer_record(owner: Address, location: [u8; LOCATION_LENGTH]) -> Record {
    Record::Synchronizer(Synchronizer { owner, location, is_active: true })
}

/// The session record every session creation writes: active from the start,
/// pointing back at its synchronizer.
pub open spec fn new_session_record(id: String, synchronizer: Address) -> Record {
    Record::Session(Session { id, synchronizer, is_active: true })
}

/// The keyed record store: every record lives at a caller-chosen address,
/// and creation at an occupied address is refused, so addresses stay unique.
pub struct Registry {
    records: Vec<(Address, Record)>,
}

impl Registry {
    /// The stored records in creation order.
    pub closed spec fn records_seq(&self) -> Seq<(Address, Record)> {
        self.records@
    }

    /// Whether some record lives at `addr`.
    pub open spec fn contains_addr(&self, addr: Seq<u8>) -> bool {
        exists|i: int|
            0 <= i < self.records_seq().len() && self.records_seq()[i].0@ == addr
    }

    /// The position of the record living at `addr`.
    pub open spec fn index_of(&self, addr: Seq<u8>) -> int {
        choose|i: int|
            0 <= i < self.records_seq().len() && self.records_seq()[i].0@ == addr
    }

    /// The record living at `addr`.
    pub open spec fn record_at(&self, addr: Seq<u8>) -> Record
        recommends
            self.contains_addr(addr),
    {
        self.records_seq()[self.index_of(addr)].1
    }

    /// Well-formed: no two records share an address.
    pub open spec fn wf(&self) -> bool {
        forall|i: int, j: int|
            0 <= i < j < self.records_seq().len() ==> self.records_seq()[i].0@
                != self.records_seq()[j].0@
    }

    /// Whether the record at `addr` exists and is a synchronizer.
    pub open spec fn has_synchronizer(&self, addr: Seq<u8>) -> bool {
        self.contains_addr(addr) && self.record_at(addr) is Synchronizer
    }

    /// With unique addresses, any position holding an address is the one
    /// `record_at` reads.
    proof fn lemma_index_agrees(&self, i: int)
        requires
            self.wf(),
            0 <= i < self.records_seq().len(),
        ensures
            self.contains_addr(self.records_seq()[i].0@),
            self.index_of(self.records_seq()[i].0@) == i,
    {
        let addr = self.records_seq()[i].0@;
        assert(self.contains_addr(addr));
        let j = self.index_of(addr);
        assert(0 <= j < self.records_seq().len() && self.records_seq()[j].0@ == addr);
    }

    /// An empty store.
    pub fn new() -> (r: Registry)
        ensures
            r.wf(),
            r.records_seq().len() == 0,
    {
        Registry { records: Vec::new() }
    }

    /// How many records the store holds.
    pub fn count(&self) -> (n: usize)
        ensures
            n == self.records_seq().len(),
    {
        self.records.len()
    }

    /// The position of the record at `addr`, if one exists.
    fn find_index(&self, addr: &Address) -> (r: Option<usize>)
        ensures
            match r {
                Some(i) => i < self.records_seq().len() && self.records_seq()[i as int].0@
                    == addr@,
                None => !self.contains_addr(addr@),
            },
    {
        let mut i: usize = 0;
        while i < self.records.len()
            invariant
                i <= self.records_seq().len(),
                forall|j: int| 0 <= j < i ==> self.records_seq()[j].0@ != addr@,
            decreases self.records_seq().len() - i,
        {
            if self.records[i].0.equals(addr) {
                return Some(i);
            }
            i += 1;
        }
        None
    }

    /// Whether any record lives at `addr`.
    pub fn contains(&self, addr: &Address) -> (b: bool)
        ensures
            b == self.contains_addr(addr@),
    {
        match self.find_index(addr) {
            Some(i) => {
                proof {
                    assert(self.contains_addr(addr@));
                }
                true
            },
            None => false,
        }
    }

    /// The record at `addr`, if any.
    pub fn get_record(&self, addr: &Address) -> (r: Option<&Record>)
        requires
            self.wf(),
        ensures
            r is Some <==> self.contains_addr(addr@),
            r matches Some(rec) ==> *rec == self.record_at(addr@),
    {
        match self.find_index(addr) {
            None => None,
            Some(i) => {
                proof {
                    self.lemma_index_agrees(i as int);
                }
                Some(&self.records[i].1)
            },
        }
    }

    /// Resolve `addr` to the synchronizer record living there, if that is
    /// what the store holds at that address.
    pub fn resolve_synchronizer(&self, addr: &Address) -> (r: Option<&Synchronizer>)
        requires
            self.wf(),
        ensures
            r is Some <==> self.has_synchronizer(addr@),
            r matches Some(s) ==> self.record_at(addr@) == Record::Synchronizer(*s),
    {
        match self.find_index(addr) {
            None => None,
            Some(i) => {
                proof {
                    self.lemma_index_agrees(i as int);
                }
                match &self.records[i].1 {
                    Record::Synchronizer(s) => Some(s),
                    Record::Session(_) => None,
                }
            },
        }
    }
}

/// Registers a new synchronizer node: allocates a record of
/// `SYNCHRONIZER_SPACE` bytes at the caller-chosen fresh address, owned by
/// the requester, with the given location tag and the active flag set. The
/// store refuses the allocation when the payer cannot fund it or the
/// address is already occupied, and then writes nothing.
pub fn initialize_synchronizer(
    registry: &mut Registry,
    new_address: Address,
    owner: Address,
    location: [u8; LOCATION_LENGTH],
    payer_funds: u64,
) -> (r: Result<(), ExchangeError>)
    requires
        old(registry).wf(),
    ensures
        final(registry).wf(),
        r is Ok <==> (payer_funds >= SYNCHRONIZER_SPACE as u64
            && !old(registry).contains_addr(new_address@)),
        r is Err ==> r == Err::<(), ExchangeError>(ExchangeError::ResourceExhaustion),
        r is Err ==> *final(registry) == *old(registry),
        r is Ok ==> final(registry).records_seq() == old(registry).records_seq().push(
            (new_address, new_synchronizer_record(owner, location)),
        ),
        r is Ok ==> final(registry).has_synchronizer(new_address@),
        r is Ok ==> final(registry).record_at(new_address@) == new_synchronizer_record(
            owner,
            location,
        ),
        forall|a: Seq<u8>| #[trigger]
            old(registry).contains_addr(a) ==> final(registry).contains_addr(a),
        r is Ok ==> forall|a: Seq<u8>| #[trigger]
            old(registry).contains_addr(a) ==> final(registry).record_at(a)
                == old(registry).record_at(a),
{
    if payer_funds < SYNCHRONIZER_SPACE as u64 {
        return Err(ExchangeError::ResourceExhaustion);
    }
    if registry.contains(&new_address) {
        return Err(ExchangeError::ResourceExhaustion);
    }
    registry.records.push(
        (new_address, Record::Synchronizer(Synchronizer { owner, location, is_active: true })),
    );
    proof {
        lemma_push_fresh(
            *old(registry),
            *registry,
            new_address,
            new_synchronizer_record(owner, location),
        );
    }
    Ok(())
}

/// Creates a session under an existing synchronizer: the reference must
/// resolve to a synchronizer record, else the call fails with
/// `UnresolvedReference` and writes nothing. On success a session record of
/// `SESSION_SPACE` bytes is allocated at the caller-chosen fresh address,
/// active and linked to the synchronizer. Duplicate session identifiers are
/// not rejected; only the backing address must be free.
pub fn create_session(
    registry: &mut Registry,
    session_address: Address,
    session_id: String,
    synchronizer: Address,
    payer_funds: u64,
) -> (r: Result<(), ExchangeError>)
    requires
        old(registry).wf(),
    ensures
        final(registry).wf(),
        r is Ok <==> (old(registry).has_synchronizer(synchronizer@) && payer_funds
            >= SESSION_SPACE as u64 && !old(registry).contains_addr(session_address@)),
        !old(registry).has_synchronizer(synchronizer@) ==> r == Err::<(), ExchangeError>(
            ExchangeError::UnresolvedReference,
        ),
        old(registry).has_synchronizer(synchronizer@) && !(payer_funds >= SESSION_SPACE as u64
            && !old(registry).contains_addr(session_address@)) ==> r == Err::<(), ExchangeError>(
            ExchangeError::ResourceExhaustion,
        ),
        r is Err ==> *final(registry) == *old(registry),
        r is Ok ==> final(registry).records_seq() == old(registry).records_seq().push(
            (session_address, new_session_record(session_id, synchronizer)),
        ),
        r is Ok ==> final(registry).contains_addr(session_address@),
        r is Ok ==> final(registry).record_at(session_address@) == new_session_record(
            session_id,
            synchronizer,
        ),
        forall|a: Seq<u8>| #[trigger]
            old(registry).contains_addr(a) ==> final(registry).contains_addr(a),
        r is Ok ==> forall|a: Seq<u8>| #[trigger]
            old(registry).contains_addr(a) ==> final(registry).record_at(a)
                == old(registry).record_at(a),
{
    let resolvable = match registry.resolve_synchronizer(&synchronizer) {
        Some(_) => true,
        None => false,
    };
    if !resolvable {
        return Err(ExchangeError::UnresolvedReference);
    }
    if payer_funds < SESSION_SPACE as u64 {
        return Err(ExchangeError::ResourceExhaustion);
    }
    if registry.contains(&session_address) {
        return Err(ExchangeError::ResourceExhaustion);
    }
    let ghost record = new_session_record(session_id, synchronizer);
    registry.records.push(
        (session_address, Record::Session(Session { id: session_id, synchronizer, is_active: true })),
    );
    proof {
        lemma_push_fresh(*old(registry), *registry, session_address, record);
    }
    Ok(())
}

/// Creating a record at a fresh address keeps the store well-formed, places
/// the record at its address, and leaves every earlier record findable and
/// unchanged.
proof fn lemma_push_fresh(before: Registry, after: Registry, addr: Address, rec: Record)
    requires
        before.wf(),
        !before.contains_addr(addr@),
        after.records_seq() == before.records_seq().push((addr, rec)),
    ensures
        after.wf(),
        after.contains_addr(addr@),
        after.record_at(addr@) == rec,
        forall|a: Seq<u8>| #[trigger]
            before.contains_addr(a) ==> after.contains_addr(a) && after.record_at(a)
                == before.record_at(a),
{
    let b = before.records_seq();
    let s = after.records_seq();
    assert(s.len() == b.len() + 1);
    assert forall|i: int| 0 <= i < b.len() implies b[i].0@ != addr@ by {
        if b[i].0@ == addr@ {
            assert(before.contains_addr(addr@));
        }
    }
    assert forall|i: int, j: int| 0 <= i < j < s.len() implies s[i].0@ != s[j].0@ by {
        if j < b.len() {
            assert(s[i] == b[i] && s[j] == b[j]);
        } else {
            assert(s[j] == (addr, rec));
            assert(s[i] == b[i]);
        }
    }
    assert(s[b.len() as int].0@ == addr@);
    after.lemma_index_agrees(b.len() as int);
    assert forall|a: Seq<u8>| #[trigger]
        before.contains_addr(a) implies after.contains_addr(a) && after.record_at(a)
        == before.record_at(a) by {
        let i = choose|i: int| 0 <= i < b.len() && b[i].0@ == a;
        before.lemma_index_agrees(i);
        assert(s[i].0@ == a);
        after.lemma_index_agrees(i);
    }
}

} // verus!

//! The runtime class-info table the generated code keeps: one record per
//! annotated type, created on first access and immutable afterwards. A record
//! carries a randomly drawn identifier; the table guarantees that every type
//! holds exactly one record and that no two records share an identifier.

use vstd::prelude::*;

verus! {

/// Relies on `uuid::Uuid::new_v4` and `uuid::Uuid::as_u128`: a freshly drawn
/// random version-4 identifier. Nothing is promised of the value.
#[verifier::external_body]
fn fresh_random_id() -> (r: u128) {
    uuid::Uuid::new_v4().as_u128()
}

/// One record of the class table: the type's identifier, its declared name,
/// the type token of its parent (absent for root types), and its own type
/// token. A type token is the process-unique identity of a concrete type.
pub struct ClassInfo {
    pub id: u128,
    pub name: String,
    pub parent: Option<u64>,
    pub type_token: u64,
}

/// Mathematical image of a `ClassInfo`.
pub struct SpecClassInfo {
    pub id: u128,
    pub name: Seq<char>,
    pub parent: Option<u64>,
    pub type_token: u64,
}

impl View for ClassInfo {
    type V = SpecClassInfo;

    open spec fn view(&self) -> SpecClassInfo {
        SpecClassInfo {
            id: self.id,
            name: self.name@,
            parent: self.parent,
            type_token: self.type_token,
        }
    }
}

/// Why a registration was refused.
#[derive(Debug, Clone, Copy, PartialEq, Eq, Structural)]
pub enum RegistryError {
    /// The candidate identifier is already held by a record of another type.
    IdCollision,
}

/// Whether some record carries this type token.
pub open spec fn has_token(entries: Seq<SpecClassInfo>, token: u64) -> bool {
    exists|i: int| 0 <= i < entries.len() && entries[i].type_token == token
}

/// The position of the record carrying this type token; meaningful only
/// where `has_token` holds of a well-formed table, which makes it unique.
pub open spec fn token_index(entries: Seq<SpecClassInfo>, token: u64) -> int {
    choose|i: int| 0 <= i < entries.len() && entries[i].type_token == token
}

/// Whether some record carries this identifier.
pub open spec fn id_used(entries: Seq<SpecClassInfo>, id: u128) -> bool {
    exists|i: int| 0 <= i < entries.len() && entries[i].id == id
}

/// No two records share a type token.
pub open spec fn tokens_distinct(entries: Seq<SpecClassInfo>) -> bool {
    forall|i: int, j: int|
        0 <= i < j < entries.len() ==> #[trigger] entries[i].type_token != #[trigger] entries[
            j
        ].type_token
}

/// No two records share an identifier.
pub open spec fn ids_distinct(entries: Seq<SpecClassInfo>) -> bool {
    forall|i: int, j: int|
        0 <= i < j < entries.len() ==> #[trigger] entries[i].id != #[trigger] entries[j].id
}

/// A well-formed table: one record per type, one type per identifier.
pub open spec fn wf(entries: Seq<SpecClassInfo>) -> bool {
    tokens_distinct(entries) && ids_distinct(entries)
}

/// What registering a record does to a well-formed table: a table that
/// already knows the type, or whose identifiers collide with the record's,
/// is left unchanged; otherwise the record is appended.
pub open spec fn spec_register(entries: Seq<SpecClassInfo>, info: SpecClassInfo) -> Seq<
    SpecClassInfo,
> {
    if has_token(entries, info.type_token) || id_used(entries, info.id) {
        entries
    } else {
        entries.push(info)
    }
}

/// In a well-formed table the record of a type token stands at one position
/// only.
pub proof fn lemma_token_index_unique(entries: Seq<SpecClassInfo>, token: u64, i: int)
    requires
        tokens_distinct(entries),
        0 <= i < entries.len(),
        entries[i].type_token == token,
    ensures
        token_index(entries, token) == i,
{
    assert(has_token(entries, token));
    let j = token_index(entries, token);
    assert(0 <= j < entries.len() && entries[j].type_token == token);
}

/// The class table itself.
pub struct Registry {
    entries: Vec<ClassInfo>,
}

impl View for Registry {
    type V = Seq<SpecClassInfo>;

    closed spec fn view(&self) -> Seq<SpecClassInfo> {
        self.entries@.map_values(|c: ClassInfo| c@)
    }
}

impl Registry {
    #[verifier::type_invariant]
    spec fn well_formed(self) -> bool {
        wf(self@)
    }

    /// An empty table.
    pub fn new() -> (r: Registry)
        ensures
            r@ == Seq::<SpecClassInfo>::empty(),
            wf(r@),
    {
        let r = Registry { entries: Vec::new() };
        proof {
            assert(r@ =~= Seq::<SpecClassInfo>::empty());
        }
        r
    }

    /// How many records the table holds.
    pub fn len(&self) -> (r: usize)
        ensures
            r == self@.len(),
    {
        self.entries.len()
    }

    /// Every table that can be reached is well formed.
    pub fn check_well_formed(&self) -> (r: bool)
        ensures
            r,
            wf(self@),
    {
        proof {
            use_type_invariant(self);
        }
        true
    }

    /// The record at a position, or nothing where the position is past the
    /// end.
    pub fn record_at(&self, i: usize) -> (r: Option<&ClassInfo>)
        ensures
            r is Some <==> i < self@.len(),
            r matches Some(c) ==> c@ == self@[i as int],
    {
        if i < self.entries.len() {
            Some(&self.entries[i])
        } else {
            None
        }
    }

    /// The position of the record of this type token, if the type has one.
    pub fn lookup(&self, type_token: u64) -> (r: Option<usize>)
        ensures
            r is Some <==> has_token(self@, type_token),
            r matches Some(i) ==> 0 <= i < self@.len() && self@[i as int].type_token == type_token
                && i as int == token_index(self@, type_token),
    {
        proof {
            use_type_invariant(self);
        }
        let n = self.entries.len();
        let mut k: usize = 0;
        while k < n
            invariant
                n == self@.len(),
                0 <= k <= n,
                tokens_distinct(self@),
                forall|j: int| 0 <= j < k ==> #[trigger] self@[j].type_token != type_token,
            decreases n - k,
        {
            if self.entries[k].type_token == type_token {
                proof {
                    lemma_token_index_unique(self@, type_token, k as int);
                }
                return Some(k);
            }
            k = k + 1;
        }
        None
    }

    /// Whether some record already carries this identifier.
    fn id_in_use(&self, id: u128) -> (r: bool)
        ensures
            r == id_used(self@, id),
    {
        let n = self.entries.len();
        let mut k: usize = 0;
        while k < n
            invariant
                n == self@.len(),
                0 <= k <= n,
                forall|j: int| 0 <= j < k ==> #[trigger] self@[j].id != id,
            decreases n - k,
        {
            if self.entries[k].id == id {
                proof {
                    assert(self@[k as int].id == id);
                }
                return true;
            }
            k = k + 1;
        }
        false
    }

    /// Registers a type under a caller-supplied candidate identifier. A type
    /// the table already knows keeps its record untouched and its position is
    /// returned: the record is a singleton per type. A new type is recorded
    /// under the candidate identifier unless another type already holds it,
    /// which is refused and changes nothing.
    pub fn register(
        &mut self,
        type_token: u64,
        name: String,
        parent: Option<u64>,
        candidate_id: u128,
    ) -> (r: Result<usize, RegistryError>)
        ensures
            final(self)@ == spec_register(
                old(self)@,
                (SpecClassInfo { id: candidate_id, name: name@, parent, type_token }),
            ),
            wf(final(self)@),
            r is Ok <==> has_token(old(self)@, type_token) || !id_used(old(self)@, candidate_id),
            has_token(old(self)@, type_token) ==> (r matches Ok(i) && i as int == token_index(
                old(self)@,
                type_token,
            )),
            !has_token(old(self)@, type_token) && !id_used(old(self)@, candidate_id) ==> (r
                matches Ok(i) && i as int == old(self)@.len()),
            r matches Err(e) ==> e == RegistryError::IdCollision && !has_token(
                old(self)@,
                type_token,
            ) && id_used(old(self)@, candidate_id),
            r is Ok ==> has_token(final(self)@, type_token),
    {
        proof {
            use_type_invariant(&*self);
        }
        match self.lookup(type_token) {
            Some(i) => Ok(i),
            None => {
                if self.id_in_use(candidate_id) {
                    Err(RegistryError::IdCollision)
                } else {
                    let ghost prior = self@;
                    let info = ClassInfo { id: candidate_id, name, parent, type_token };
                    let ghost spec_info = info@;
                    let mut ents: Vec<ClassInfo> = Vec::new();
                    std::mem::swap(&mut ents, &mut self.entries);
                    ents.push(info);
                    let ghost grown = ents@.map_values(|c: ClassInfo| c@);
                    proof {
                        assert(grown =~= prior.push(spec_info));
                        assert forall|i: int, j: int| 0 <= i < j < grown.len() implies #[trigger]
                            grown[i].type_token != #[trigger] grown[j].type_token && grown[i].id
                            != grown[j].id by {
                            if j == prior.len() {
                                assert(!has_token(prior, type_token));
                                assert(!id_used(prior, candidate_id));
                            }
                        }
                    }
                    self.entries = ents;
                    proof {
                        assert(has_token(self@, type_token)) by {
                            assert(self@[prior.len() as int].type_token == type_token);
                        }
                    }
                    Ok(self.entries.len() - 1)
                }
            },
        }
    }

    /// The class-info access of the generated code: returns the position of
    /// the type's record, creating the record with a freshly drawn random
    /// identifier on first access. Whatever identifier the draw yields, a
    /// type the table knows keeps its record untouched; a new type is either
    /// recorded under the drawn identifier or, where that identifier is
    /// already held, refused with the table unchanged.
    pub fn class_info(&mut self, type_token: u64, name: String, parent: Option<u64>) -> (r: Result<
        usize,
        RegistryError,
    >)
        ensures
            wf(final(self)@),
            has_token(old(self)@, type_token) ==> final(self)@ == old(self)@ && (r matches Ok(i)
                && i as int == token_index(old(self)@, type_token)),
            !has_token(old(self)@, type_token) ==> match r {
                Ok(i) => i as int == old(self)@.len() && (exists|id: u128|
                    !id_used(old(self)@, id) && final(self)@ == old(self)@.push(
                        (SpecClassInfo { id, name: name@, parent, type_token }),
                    )),
                Err(e) => e == RegistryError::IdCollision && final(self)@ == old(self)@,
            },
            r is Ok ==> has_token(final(self)@, type_token),
    {
        let candidate: u128 = fresh_random_id();
        proof {
            use_type_invariant(&*self);
            if has_token(self@, type_token) {
                assert(spec_register(
                    self@,
                    (SpecClassInfo { id: candidate, name: name@, parent, type_token }),
                ) == self@);
            }
        }
        self.register(type_token, name, parent, candidate)
    }
}

/// Law: the class record is a singleton per type. Once a registration has
/// given a type its record, registering the same type again — under whatever
/// name, parent or candidate identifier — leaves the table unchanged and
/// finds the record at the same position, with the same identifier.
pub proof fn lemma_class_info_singleton(
    entries: Seq<SpecClassInfo>,
    first: SpecClassInfo,
    second: SpecClassInfo,
)
    requires
        second.type_token == first.type_token,
        has_token(spec_register(entries, first), first.type_token),
    ensures
        spec_register(spec_register(entries, first), second) == spec_register(entries, first),
{
}

/// Law: two distinct types always hold distinct identifiers. In a well-formed
/// table, records whose type tokens differ never share an identifier.
pub proof fn lemma_distinct_ids(entries: Seq<SpecClassInfo>, i: int, j: int)
    requires
        wf(entries),
        0 <= i < entries.len(),
        0 <= j < entries.len(),
        entries[i].type_token != entries[j].type_token,
    ensures
        entries[i].id != entries[j].id,
{
    assert(i != j);
}

} // verus!

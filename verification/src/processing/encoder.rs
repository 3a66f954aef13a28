//! The catalog of video encoders.
//!
//! The media subsystem enumerates its encoders in an order of its own and
//! may name one twice. The catalog keeps one descriptor for each name: the
//! one that the enumeration gave last. It is made anew from each
//! enumeration and never kept, since drivers and hardware may change.

use crate::error::RecorderError;
use vstd::prelude::*;

verus! {

/// The identity that the media subsystem gives an encoder: 128 opaque bits.
#[derive(Debug, Clone, Copy, PartialEq, Eq, Structural)]
pub struct EncoderGuid(pub u128);

/// One encoder as the media subsystem describes it: its display name, its
/// identity, and its capability flags as the subsystem reports them.
#[derive(Debug, Clone, PartialEq, Eq)]
pub struct VideoEncoderInfo {
    pub name: String,
    pub guid: EncoderGuid,
    pub flags: u32,
}

/// The mathematical content of a [`VideoEncoderInfo`].
pub struct EncoderDescriptor {
    pub name: Seq<char>,
    pub guid: EncoderGuid,
    pub flags: u32,
}

impl View for VideoEncoderInfo {
    type V = EncoderDescriptor;

    open spec fn view(&self) -> EncoderDescriptor {
        EncoderDescriptor { name: self.name@, guid: self.guid, flags: self.flags }
    }
}

/// A list of encoders as a sequence of descriptors.
pub open spec fn descriptors(encoders: Seq<VideoEncoderInfo>) -> Seq<EncoderDescriptor> {
    encoders.map_values(|encoder: VideoEncoderInfo| encoder@)
}

/// No two descriptors of the list have the same name.
pub open spec fn names_are_unique(listed: Seq<EncoderDescriptor>) -> bool {
    forall|i: int, j: int| 0 <= i < j < listed.len() ==> listed[i].name != listed[j].name
}

/// The catalog that an enumeration gives: the descriptors are entered under
/// their names in the order of the enumeration, a later one taking the place
/// of an earlier one with the same name.
pub open spec fn catalog_of(listed: Seq<EncoderDescriptor>) -> Map<Seq<char>, EncoderDescriptor>
    decreases listed.len(),
{
    if listed.len() == 0 {
        Map::empty()
    } else {
        catalog_of(listed.drop_last()).insert(listed.last().name, listed.last())
    }
}

/// The descriptor at position `at` is the last one of the list with its
/// name.
pub open spec fn is_last_of_its_name(listed: Seq<EncoderDescriptor>, at: int) -> bool {
    &&& 0 <= at < listed.len()
    &&& forall|later: int| at < later < listed.len() ==> listed[later].name != listed[at].name
}

/// The text of the error that a failed enumeration is reported with.
pub open spec fn enumeration_failure(detail: Seq<char>) -> Seq<char> {
    "Failed to get encoders: "@ + detail
}

/// The names of a catalog are the names of the list it was made from.
pub proof fn lemma_catalog_names(listed: Seq<EncoderDescriptor>, name: Seq<char>)
    ensures
        catalog_of(listed).dom().contains(name) <==> exists|at: int|
            0 <= at < listed.len() && (#[trigger] listed[at]).name == name,
    decreases listed.len(),
{
    if listed.len() > 0 {
        let front = listed.drop_last();
        lemma_catalog_names(front, name);
        if exists|at: int| 0 <= at < listed.len() && (#[trigger] listed[at]).name == name {
            let at = choose|at: int| 0 <= at < listed.len() && (#[trigger] listed[at]).name == name;
            if at < listed.len() - 1 {
                assert(front[at].name == name);
            }
        }
    }
}

/// Last write wins: under each name the catalog holds the descriptor that
/// the list gives last for that name.
pub proof fn lemma_last_listed_wins(listed: Seq<EncoderDescriptor>, at: int)
    requires
        is_last_of_its_name(listed, at),
    ensures
        catalog_of(listed).dom().contains(listed[at].name),
        catalog_of(listed)[listed[at].name] == listed[at],
    decreases listed.len(),
{
    if at < listed.len() - 1 {
        let front = listed.drop_last();
        lemma_last_listed_wins(front, at);
    }
}

/// A catalog holds finitely many names, and as many as the list it was
/// made from where that list names no encoder twice.
pub proof fn lemma_catalog_len(listed: Seq<EncoderDescriptor>)
    ensures
        catalog_of(listed).dom().finite(),
        catalog_of(listed).len() <= listed.len(),
        names_are_unique(listed) ==> catalog_of(listed).len() == listed.len(),
    decreases listed.len(),
{
    if listed.len() > 0 {
        let front = listed.drop_last();
        lemma_catalog_len(front);
        if names_are_unique(listed) {
            lemma_catalog_names(front, listed.last().name);
        }
    }
}

/// In a list that names no encoder twice every descriptor is the last of
/// its name.
proof fn lemma_unique_names_are_last(listed: Seq<EncoderDescriptor>, at: int)
    requires
        names_are_unique(listed),
        0 <= at < listed.len(),
    ensures
        is_last_of_its_name(listed, at),
{
}

/// The catalog of a list that has one descriptor more in front: the
/// descriptor is entered unless the rest of the list gives its name again.
proof fn lemma_catalog_prepend(entry: EncoderDescriptor, rest: Seq<EncoderDescriptor>)
    ensures
        catalog_of(seq![entry] + rest) == if catalog_of(rest).dom().contains(entry.name) {
            catalog_of(rest)
        } else {
            catalog_of(rest).insert(entry.name, entry)
        },
    decreases rest.len(),
{
    let whole = seq![entry] + rest;
    if rest.len() == 0 {
        assert(whole.drop_last() =~= rest);
    } else {
        let front = rest.drop_last();
        assert(whole.drop_last() =~= seq![entry] + front);
        lemma_catalog_prepend(entry, front);
    }
}

/// The catalog of a list that is one descriptor longer.
proof fn lemma_catalog_push(listed: Seq<EncoderDescriptor>, entry: EncoderDescriptor)
    ensures
        catalog_of(listed.push(entry)) == catalog_of(listed).insert(entry.name, entry),
{
    assert(listed.push(entry).drop_last() =~= listed);
}

/// The encoders that are available, one under each display name.
#[derive(Debug)]
pub struct EncoderCatalog {
    entries: Vec<VideoEncoderInfo>,
}

impl View for EncoderCatalog {
    type V = Map<Seq<char>, EncoderDescriptor>;

    closed spec fn view(&self) -> Map<Seq<char>, EncoderDescriptor> {
        catalog_of(descriptors(self.entries@))
    }
}

/// The position of the encoder with the given name in a list that names no
/// encoder twice.
fn position_of(entries: &Vec<VideoEncoderInfo>, name: &String) -> (found: Option<usize>)
    ensures
        match found {
            Some(at) => at < entries.len() && entries[at as int].name@ == name@,
            None => forall|at: int| 0 <= at < entries.len() ==> entries[at].name@ != name@,
        },
{
    let mut at: usize = 0;
    while at < entries.len()
        invariant
            at <= entries.len(),
            forall|before: int| 0 <= before < at ==> entries[before].name@ != name@,
        decreases entries.len() - at,
    {
        if entries[at].name == *name {
            return Some(at);
        }
        at = at + 1;
    }
    None
}

impl EncoderCatalog {
    #[verifier::type_invariant]
    spec fn no_name_twice(self) -> bool {
        names_are_unique(descriptors(self.entries@))
    }

    /// Makes the catalog of an enumeration. Where the enumeration names an
    /// encoder more than once, the descriptor it gives last is kept.
    pub fn from_enumeration(listed: Vec<VideoEncoderInfo>) -> (catalog: Self)
        ensures
            catalog@ == catalog_of(descriptors(listed@)),
    {
        let ghost total = descriptors(listed@);
        let ghost taken = Seq::<EncoderDescriptor>::empty();
        let mut remaining = listed;
        let mut entries: Vec<VideoEncoderInfo> = Vec::new();
        // The list is taken from its end, so that the descriptor met first
        // under a name is the one that was listed last.
        while remaining.len() > 0
            invariant
                total == descriptors(remaining@) + taken,
                names_are_unique(descriptors(entries@)),
                catalog_of(descriptors(entries@)) == catalog_of(taken),
            decreases remaining.len(),
        {
            let ghost kept = descriptors(entries@);
            let encoder = remaining.pop().unwrap();
            let ghost entry = encoder@;
            proof {
                lemma_catalog_prepend(entry, taken);
                lemma_catalog_names(kept, entry.name);
            }
            match position_of(&entries, &encoder.name) {
                Some(at) => {
                    assert(kept[at as int].name == entry.name);
                },
                None => {
                    entries.push(encoder);
                    proof {
                        lemma_catalog_push(kept, entry);
                        assert(descriptors(entries@) =~= kept.push(entry));
                    }
                },
            }
            proof {
                taken = seq![entry] + taken;
            }
        }
        EncoderCatalog { entries }
    }

    /// The number of encoders in the catalog.
    pub fn len(&self) -> (len: usize)
        ensures
            len == self@.len(),
            self@.dom().finite(),
    {
        proof {
            use_type_invariant(self);
            lemma_catalog_len(descriptors(self.entries@));
        }
        self.entries.len()
    }

    /// The encoder with the given display name, if the catalog holds one.
    pub fn get(&self, name: &str) -> (found: Option<&VideoEncoderInfo>)
        ensures
            match found {
                Some(encoder) => self@.dom().contains(name@) && self@[name@] == encoder@,
                None => !self@.dom().contains(name@),
            },
    {
        let wanted = name.to_owned();
        let ghost listed = descriptors(self.entries@);
        proof {
            use_type_invariant(self);
            lemma_catalog_names(listed, name@);
        }
        match position_of(&self.entries, &wanted) {
            Some(at) => {
                proof {
                    lemma_unique_names_are_last(listed, at as int);
                    lemma_last_listed_wins(listed, at as int);
                }
                Some(&self.entries[at])
            },
            None => {
                None
            },
        }
    }

    /// The encoders of the catalog as a list, each name once. Their order
    /// carries no meaning.
    pub fn entries(&self) -> (entries: &[VideoEncoderInfo])
        ensures
            entries.len() == self@.len(),
            names_are_unique(descriptors(entries@)),
            forall|at: int|
                0 <= at < entries.len() ==> self@.dom().contains((#[trigger] entries[at]).name@)
                    && self@[entries[at].name@] == entries[at]@,
            forall|name: Seq<char>| #[trigger]
                self@.dom().contains(name) ==> exists|at: int|
                    0 <= at < entries.len() && (#[trigger] entries[at]).name@ == name,
    {
        let ghost listed = descriptors(self.entries@);
        proof {
            use_type_invariant(self);
            lemma_catalog_len(listed);
            assert forall|at: int| 0 <= at < self.entries.len() implies self@.dom().contains(
                (#[trigger] self.entries[at]).name@,
            ) && self@[self.entries[at].name@] == self.entries[at]@ by {
                lemma_unique_names_are_last(listed, at);
                lemma_last_listed_wins(listed, at);
            }
            assert forall|name: Seq<char>| #[trigger] self@.dom().contains(name) implies exists|
                at: int,
            |
                0 <= at < self.entries.len() && (#[trigger] self.entries[at]).name@ == name by {
                lemma_catalog_names(listed, name);
            }
        }
        self.entries.as_slice()
    }
}

/// Turns what enumerating the encoders gave into what the catalog query
/// returns: the catalog of the enumeration, or for a failed enumeration an
/// error that carries its description.
pub fn catalog_from(listed: Result<Vec<VideoEncoderInfo>, String>) -> (catalog: Result<
    EncoderCatalog,
    RecorderError,
>)
    ensures
        is_catalog_from(listed, catalog),
{
    match listed {
        Ok(encoders) => Ok(EncoderCatalog::from_enumeration(encoders)),
        Err(detail) => {
            let message = String::from_str("Failed to get encoders: ").concat(detail.as_str());
            Err(RecorderError::Generic(message))
        },
    }
}

/// `catalog` is what the catalog query returns where enumerating the
/// encoders gave `listed`.
pub open spec fn is_catalog_from(
    listed: Result<Vec<VideoEncoderInfo>, String>,
    catalog: Result<EncoderCatalog, RecorderError>,
) -> bool {
    match listed {
        Ok(encoders) => catalog matches Ok(made) && made@ == catalog_of(descriptors(encoders@)),
        Err(detail) => catalog matches Err(error) && error@ == crate::error::RecorderFailure::Generic(
            enumeration_failure(detail@),
        ),
    }
}

} // verus!

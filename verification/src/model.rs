use vstd::prelude::*;
use vstd::string::*;
use crate::text::{
    decimal, lowercase_chars, push_decimal, replace_spaces, spaces_to_underscores, to_lowercase,
};

verus! {

broadcast use vstd::seq_lib::group_filter_ensures;

/// One enrolled capture of a face: a pose label and the feature embedding
/// `E` extracted from it.
pub struct EnrolledSample<E> {
    pub id: String,
    /// e.g. "Center", "Look Left", "Look Right", "Tilt Up", "Tilt Down".
    pub pose_label: String,
    pub embedding: E,
    pub created_at: u64,
}

/// An enrolled person with the samples captured for them.
pub struct FaceIdentity<E> {
    pub id: String,
    pub name: String,
    pub samples: Vec<EnrolledSample<E>>,
    pub is_active: bool,
    pub created_at: u64,
}

/// The identifier of a profile enrolled as `name` at time `now`:
/// `face_<lowercased name, spaces as underscores>_<now>`.
pub open spec fn identity_id_for(name: Seq<char>, now: u64) -> Seq<char> {
    "face_"@ + spaces_to_underscores(lowercase_chars(name)) + "_"@ + decimal(now as nat)
}

/// The identifier of the sample at position `index` of profile `identity_id`.
pub open spec fn sample_id_for(identity_id: Seq<char>, index: nat) -> Seq<char> {
    identity_id + "_"@ + decimal(index)
}

/// The case-insensitive key under which profiles are told apart by name.
pub open spec fn name_key<E>(identity: FaceIdentity<E>) -> Seq<char> {
    lowercase_chars(identity.name@)
}

/// Keeps the profiles whose name key differs from `key`.
pub open spec fn named_otherwise<E>(key: Seq<char>) -> spec_fn(FaceIdentity<E>) -> bool {
    |identity: FaceIdentity<E>| name_key(identity) != key
}

/// The profiles of `identities` not called `key` (case-insensitively), in order.
pub open spec fn without_name<E>(identities: Seq<FaceIdentity<E>>, key: Seq<char>) -> Seq<
    FaceIdentity<E>,
> {
    identities.filter(named_otherwise(key))
}

/// Calls `SystemTime::now` and reads it as whole seconds since the Unix
/// epoch (zero for a clock before the epoch). Nothing is claimed of the value.
#[verifier::external_body]
fn unix_time_now() -> (secs: u64) {
    std::time::SystemTime::now().duration_since(std::time::UNIX_EPOCH).unwrap_or_default().as_secs()
}

impl<E> FaceIdentity<E> {
    /// A new active profile for `name`, stamped with the current time.
    pub fn new(name: &str) -> (identity: Self)
        ensures
            identity.name@ == name@,
            identity.id@ == identity_id_for(name@, identity.created_at),
            identity.samples@.len() == 0,
            identity.is_active,
    {
        let now: u64 = unix_time_now();
        Self::new_at(name, now)
    }

    /// A new active profile for `name` created at `now` (seconds since the epoch).
    pub fn new_at(name: &str, now: u64) -> (identity: Self)
        ensures
            identity.name@ == name@,
            identity.id@ == identity_id_for(name@, now),
            identity.created_at == now,
            identity.samples@.len() == 0,
            identity.is_active,
    {
        let lower = to_lowercase(name);
        let slug = replace_spaces(lower.as_str());
        let mut id = String::from_str("face_");
        id.append(slug.as_str());
        id.append("_");
        push_decimal(&mut id, now);
        FaceIdentity {
            id,
            name: String::from_str(name),
            samples: Vec::new(),
            is_active: true,
            created_at: now,
        }
    }

    /// Appends a sample captured in pose `pose_label`; its identifier is the
    /// profile's identifier followed by the sample's position.
    pub fn add_sample(&mut self, pose_label: String, embedding: E, created_at: u64)
        ensures
            final(self).id == old(self).id,
            final(self).name == old(self).name,
            final(self).is_active == old(self).is_active,
            final(self).created_at == old(self).created_at,
            final(self).samples@.len() == old(self).samples@.len() + 1,
            final(self).samples@.take(old(self).samples@.len() as int) == old(self).samples@,
            final(self).samples@.last().id@ == sample_id_for(
                old(self).id@,
                old(self).samples@.len(),
            ),
            final(self).samples@.last().pose_label == pose_label,
            final(self).samples@.last().embedding == embedding,
            final(self).samples@.last().created_at == created_at,
    {
        let index: usize = self.samples.len();
        let mut id = String::from_str(self.id.as_str());
        id.append("_");
        push_decimal(&mut id, index as u64);
        self.samples.push(EnrolledSample { id, pose_label, embedding, created_at });
        proof {
            assert(final(self).samples@.take(old(self).samples@.len() as int) == old(
                self,
            ).samples@);
        }
    }
}

/// Whether `identity` is called `key` (compared after lowercasing).
fn has_name_key<E>(identity: &FaceIdentity<E>, key: &String) -> (same: bool)
    ensures
        same == (name_key(*identity) == key@),
{
    let lower = to_lowercase(identity.name.as_str());
    lower == *key
}

/// Removes, in place and keeping the order of the rest, every profile
/// called `name` (case-insensitively). Reports whether any was removed.
pub fn remove_identities_named<E>(identities: &mut Vec<FaceIdentity<E>>, name: &str) -> (removed:
    bool)
    ensures
        final(identities)@ == without_name(old(identities)@, lowercase_chars(name@)),
        removed == (final(identities)@.len() < old(identities)@.len()),
{
    let key = to_lowercase(name);
    let original_len: usize = identities.len();
    let ghost original = identities@;
    let ghost pred = named_otherwise::<E>(key@);
    let mut i: usize = 0;
    let ghost mut j: int = 0;
    proof {
        reveal(Seq::filter);
        assert(original.take(0) == Seq::<FaceIdentity<E>>::empty());
        assert(original.skip(0) == original);
        assert(identities@ == original.take(0).filter(pred) + original.skip(0));
    }
    while i < identities.len()
        invariant
            0 <= j <= original.len(),
            pred == named_otherwise::<E>(key@),
            identities@ == original.take(j).filter(pred) + original.skip(j),
            i == original.take(j).filter(pred).len(),
        decreases identities.len() - i,
    {
        let ghost before = identities@;
        proof {
            assert(original.skip(j)[0] == original[j]);
            assert(identities@[i as int] == original[j]);
            assert(original.take(j + 1).drop_last() == original.take(j));
            assert(original.take(j + 1).last() == original[j]);
            reveal(Seq::filter);
        }
        if has_name_key(&identities[i], &key) {
            identities.remove(i);
            proof {
                assert(original.take(j + 1).filter(pred) == original.take(j).filter(pred));
                assert(identities@ == original.take(j + 1).filter(pred) + original.skip(j + 1));
            }
        } else {
            proof {
                assert(original.take(j + 1).filter(pred) == original.take(j).filter(pred).push(
                    original[j],
                ));
                assert(identities@ == original.take(j + 1).filter(pred) + original.skip(j + 1));
            }
            i = i + 1;
        }
        proof {
            j = j + 1;
        }
    }
    proof {
        assert(original.skip(j).len() == 0);
        assert(j == original.len());
        assert(original.take(j) == original);
        assert(identities@ == original.filter(pred));
        lemma_filter_shrinks_iff_dropped(original, pred);
    }
    identities.len() < original_len
}

/// Filtering is shorter exactly when some element fails the predicate.
proof fn lemma_filter_shrinks_iff_dropped<A>(s: Seq<A>, pred: spec_fn(A) -> bool)
    ensures
        s.filter(pred).len() < s.len() <==> exists|i: int| 0 <= i < s.len() && !pred(s[i]),
    decreases s.len(),
{
    reveal(Seq::filter);
    if s.len() > 0 {
        let rest = s.drop_last();
        lemma_filter_shrinks_iff_dropped(rest, pred);
        rest.lemma_filter_len(pred);
        if exists|i: int| 0 <= i < rest.len() && !pred(rest[i]) {
            let i: int = choose|i: int| 0 <= i < rest.len() && !pred(rest[i]);
            assert(s[i] == rest[i]);
        }
        if exists|i: int| 0 <= i < s.len() && !pred(s[i]) {
            let i: int = choose|i: int| 0 <= i < s.len() && !pred(s[i]);
            if i < s.len() - 1 {
                assert(rest[i] == s[i]);
            }
        }
    }
}

/// Enrolls `identity`, replacing every earlier profile with the same name
/// (case-insensitively); the new profile comes last.
pub fn enroll_identity<E>(identities: &mut Vec<FaceIdentity<E>>, identity: FaceIdentity<E>)
    ensures
        final(identities)@ == without_name(old(identities)@, name_key(identity)).push(identity),
{
    remove_identities_named(identities, identity.name.as_str());
    identities.push(identity);
}

/// A removal reports `true` exactly when some profile had that name.
pub proof fn lemma_removal_reports_match<E>(identities: Seq<FaceIdentity<E>>, key: Seq<char>)
    ensures
        without_name(identities, key).len() < identities.len() <==> exists|i: int|
            0 <= i < identities.len() && name_key(identities[i]) == key,
{
    lemma_filter_shrinks_iff_dropped(identities, named_otherwise::<E>(key));
}

/// After removing a name, no remaining profile carries it, and every
/// profile with another name is still there.
pub proof fn lemma_removal_is_exact<E>(identities: Seq<FaceIdentity<E>>, key: Seq<char>)
    ensures
        forall|i: int|
            0 <= i < without_name(identities, key).len() ==> name_key(
                #[trigger] without_name(identities, key)[i],
            ) != key,
        forall|i: int|
            0 <= i < identities.len() && name_key(identities[i]) != key ==> without_name(
                identities,
                key,
            ).contains(#[trigger] identities[i]),
{
    let pred = named_otherwise::<E>(key);
    assert forall|i: int| 0 <= i < without_name(identities, key).len() implies name_key(
        #[trigger] without_name(identities, key)[i],
    ) != key by {
        identities.lemma_filter_pred(pred, i);
    }
    assert forall|i: int|
        0 <= i < identities.len() && name_key(identities[i]) != key implies without_name(
        identities,
        key,
    ).contains(#[trigger] identities[i]) by {
        identities.lemma_filter_contains(pred, i);
    }
}

/// After enrolling a profile, it is the only profile with its name
/// (case-insensitively), and it is the last one.
pub proof fn lemma_enrolled_name_is_unique<E>(
    identities: Seq<FaceIdentity<E>>,
    identity: FaceIdentity<E>,
)
    ensures
        ({
            let enrolled = without_name(identities, name_key(identity)).push(identity);
            &&& enrolled.last() == identity
            &&& forall|i: int|
                0 <= i < enrolled.len() && name_key(#[trigger] enrolled[i]) == name_key(identity)
                    ==> i == enrolled.len() - 1
        }),
{
    let key = name_key(identity);
    let kept = without_name(identities, key);
    let enrolled = kept.push(identity);
    lemma_removal_is_exact(identities, key);
    assert forall|i: int|
        0 <= i < enrolled.len() && name_key(#[trigger] enrolled[i]) == key implies i
        == enrolled.len() - 1 by {
        if i < kept.len() {
            assert(enrolled[i] == kept[i]);
        }
    }
}

/// Filtering twice by the same predicate filters once.
proof fn lemma_filter_idempotent<A>(s: Seq<A>, pred: spec_fn(A) -> bool)
    ensures
        s.filter(pred).filter(pred) == s.filter(pred),
    decreases s.len(),
{
    reveal(Seq::filter);
    if s.len() > 0 {
        let rest = s.drop_last();
        lemma_filter_idempotent(rest, pred);
        if pred(s.last()) {
            let once = rest.filter(pred).push(s.last());
            assert(once.drop_last() == rest.filter(pred));
            assert(once.filter(pred) == once.drop_last().filter(pred).push(once.last()));
        }
    }
}

/// Deleting a profile by the name it was just enrolled under leaves the
/// profiles as they were, minus every profile of that name.
pub proof fn lemma_delete_undoes_enroll<E>(
    identities: Seq<FaceIdentity<E>>,
    identity: FaceIdentity<E>,
)
    ensures
        without_name(
            without_name(identities, name_key(identity)).push(identity),
            name_key(identity),
        ) == without_name(identities, name_key(identity)),
{
    let key = name_key(identity);
    let pred = named_otherwise::<E>(key);
    let kept = identities.filter(pred);
    let enrolled = kept.push(identity);
    reveal(Seq::filter);
    assert(enrolled.drop_last() == kept);
    assert(!pred(identity));
    assert(enrolled.filter(pred) == kept.filter(pred));
    lemma_filter_idempotent(identities, pred);
}

} // verus!

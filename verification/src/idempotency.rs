//! The idempotency keys of interactions.
//!
//! A key is made of the operation, the process and what the clock shows. No two interactions of a
//! process share a key, whatever the clock shows.

use vstd::prelude::*;

use crate::text::{decimal, decimal_text, decimal_text_is_injective, same_text};

verus! {

/// The idempotency key of an interaction that a process begins at a point in time.
pub open spec fn key_text(operation: Seq<char>, process: u32, nanos: nat) -> Seq<char> {
    "jcode-platform-"@ + operation + "-"@ + decimal_text(process as nat) + "-"@ + decimal_text(
        nanos,
    )
}

fn write_key(operation: &str, process: u32, nanos: u128) -> (key: String)
    ensures
        key@ == key_text(operation@, process, nanos as nat),
{
    let mut key = "jcode-platform-".to_owned();
    key.append(operation);
    key.append("-");
    key.append(decimal(process as u128).as_str());
    key.append("-");
    key.append(decimal(nanos).as_str());
    key
}

/// Where the idempotency keys of a process come from.
#[derive(Debug)]
pub struct KeySource {
    pub process: u32,
    /// The keys that were given so far.
    pub given: Vec<String>,
}

/// Where the idempotency keys of a process come from, over sequences.
#[verifier::ext_equal]
pub struct KeySourceModel {
    pub process: u32,
    pub given: Seq<Seq<char>>,
}

impl View for KeySource {
    type V = KeySourceModel;

    open spec fn view(&self) -> KeySourceModel {
        KeySourceModel { process: self.process, given: self.given.deep_view() }
    }
}

/// What a clock shows, in nanoseconds since the epoch. One that stands before the epoch counts as
/// standing at it.
pub open spec fn reading(nanos: Option<u128>) -> nat {
    match nanos {
        Some(nanos) => nanos as nat,
        None => 0,
    }
}

impl KeySourceModel {
    /// Whether a point in time is the first, from a reading on, under which no key was given to
    /// an operation.
    pub open spec fn first_free(self, operation: Seq<char>, from: nat, point: nat) -> bool {
        &&& from <= point
        &&& !self.given.contains(key_text(operation, self.process, point))
        &&& forall|taken: nat|
            from <= taken < point ==> self.given.contains(
                #[trigger] key_text(operation, self.process, taken),
            )
    }

    /// The key of the next interaction: it names what the clock shows, or the first point after
    /// that where that key was given already.
    pub open spec fn next_key(self, operation: Seq<char>, nanos: Option<u128>) -> Seq<char> {
        key_text(
            operation,
            self.process,
            choose|point: nat| self.first_free(operation, reading(nanos), point),
        )
    }

    /// The source once it has given a key.
    pub open spec fn having_given(self, key: Seq<char>) -> KeySourceModel {
        KeySourceModel { given: self.given.push(key), ..self }
    }
}

impl KeySource {
    /// A source for a process that has begun no interaction yet.
    pub fn new(process: u32) -> (source: Self)
        ensures
            source@ == (KeySourceModel { process, given: Seq::empty() }),
    {
        let source = KeySource { process, given: Vec::new() };
        proof {
            assert(source@.given =~= Seq::empty());
        }
        source
    }
}

fn is_given(given: &Vec<String>, key: &String) -> (found: bool)
    ensures
        found == given.deep_view().contains(key@),
{
    let ghost keys = given.deep_view();
    let mut at: usize = 0;
    while at < given.len()
        invariant
            at <= given@.len(),
            keys == given.deep_view(),
            forall|i: int| 0 <= i < at ==> #[trigger] keys[i] != key@,
        decreases given@.len() - at,
    {
        proof {
            assert(keys[at as int] == given@[at as int]@);
        }
        if same_text(given[at].as_str(), key.as_str()) {
            return true;
        }
        at += 1;
    }
    false
}

/// The idempotency key of an interaction, given what the clock shows in nanoseconds since the
/// epoch, if it does not stand before it.
///
/// The key names what the clock shows. Where that key was given already, since the clock has not
/// moved on or was set back, it names the first point after that under which none was.
pub fn interaction_key(operation: &str, keys: &mut KeySource, nanos: Option<u128>) -> (key: String)
    requires
        reading(nanos) + old(keys)@.given.len() <= u128::MAX,
    ensures
        key@ == old(keys)@.next_key(operation@, nanos),
        final(keys)@ == old(keys)@.having_given(key@),
        !old(keys)@.given.contains(key@),
        !old(keys)@.given.contains(key_text(operation@, old(keys)@.process, reading(nanos)))
            ==> key@ == key_text(operation@, old(keys)@.process, reading(nanos)),
{
    let ghost source = keys@;
    let ghost from = reading(nanos);
    let mut point: u128 = match nanos {
        Some(nanos) => nanos,
        None => 0,
    };
    let mut key = write_key(operation, keys.process, point);
    while is_given(&keys.given, &key)
        invariant
            keys@ == source,
            keys.process == source.process,
            from <= point,
            from + source.given.len() <= u128::MAX,
            key@ == key_text(operation@, source.process, point as nat),
            forall|taken: nat|
                from <= taken < point ==> source.given.contains(
                    #[trigger] key_text(operation@, source.process, taken),
                ),
        decreases from + source.given.len() - point,
    {
        proof {
            taken_points_are_counted(source, operation@, from, (point + 1) as nat);
        }
        point += 1;
        key = write_key(operation, keys.process, point);
    }
    proof {
        assert(source.first_free(operation@, from, point as nat));
        first_free_is_unique(
            source,
            operation@,
            from,
            point as nat,
            choose|other: nat| source.first_free(operation@, from, other),
        );
    }
    let copy = key.clone();
    keys.given.push(copy);
    proof {
        assert(keys@.given =~= source.given.push(key@));
    }
    key
}

proof fn first_free_is_unique(
    source: KeySourceModel,
    operation: Seq<char>,
    from: nat,
    point: nat,
    other: nat,
)
    requires
        source.first_free(operation, from, point),
        source.first_free(operation, from, other),
    ensures
        point == other,
{
    if point < other {
        assert(source.given.contains(key_text(operation, source.process, point)));
    }
    if other < point {
        assert(source.given.contains(key_text(operation, source.process, other)));
    }
}

/// Points that are taken were each given a key of their own.
proof fn taken_points_are_counted(
    source: KeySourceModel,
    operation: Seq<char>,
    from: nat,
    point: nat,
)
    requires
        from <= point,
        forall|taken: nat|
            from <= taken < point ==> source.given.contains(
                #[trigger] key_text(operation, source.process, taken),
            ),
    ensures
        point - from <= source.given.len(),
{
    let keys = Seq::new(
        (point - from) as nat,
        |i: int| key_text(operation, source.process, (from + i) as nat),
    );
    assert forall|i: int, j: int| 0 <= i < j < keys.len() implies keys[i] != keys[j] by {
        if keys[i] == keys[j] {
            keys_tell_their_parts(
                operation,
                source.process,
                (from + i) as nat,
                operation,
                source.process,
                (from + j) as nat,
            );
        }
    }
    assert(keys.no_duplicates());
    assert forall|key: Seq<char>| keys.to_set().contains(key) implies source.given.to_set().contains(
        key,
    ) by {
        let i = choose|i: int| 0 <= i < keys.len() && keys[i] == key;
        assert(source.given.contains(key_text(operation, source.process, (from + i) as nat)));
    }
    keys.unique_seq_to_set();
    source.given.lemma_cardinality_of_set();
    vstd::seq_lib::seq_to_set_is_finite(source.given);
    vstd::set_lib::lemma_len_subset(keys.to_set(), source.given.to_set());
}

proof fn free_point_is_found(
    source: KeySourceModel,
    operation: Seq<char>,
    from: nat,
    point: nat,
) -> (free: nat)
    requires
        from <= point,
        forall|taken: nat|
            from <= taken < point ==> source.given.contains(
                #[trigger] key_text(operation, source.process, taken),
            ),
    ensures
        source.first_free(operation, from, free),
    decreases from + source.given.len() + 1 - point,
{
    taken_points_are_counted(source, operation, from, point);
    if source.given.contains(key_text(operation, source.process, point)) {
        assert forall|taken: nat| from <= taken < point + 1 implies source.given.contains(
            #[trigger] key_text(operation, source.process, taken),
        ) by {}
        free_point_is_found(source, operation, from, point + 1)
    } else {
        point
    }
}

/// A source never gives a key twice, and names what the clock shows wherever that key is still
/// to be given.
pub proof fn next_key_is_new(source: KeySourceModel, operation: Seq<char>, nanos: Option<u128>)
    ensures
        !source.given.contains(source.next_key(operation, nanos)),
        !source.given.contains(key_text(operation, source.process, reading(nanos)))
            ==> source.next_key(operation, nanos) == key_text(
            operation,
            source.process,
            reading(nanos),
        ),
{
    let from = reading(nanos);
    let free = free_point_is_found(source, operation, from, from);
    let point = choose|point: nat| source.first_free(operation, from, point);
    assert(source.first_free(operation, from, point));
    if from < point {
        assert(source.given.contains(key_text(operation, source.process, from)));
    }
}

/// The keys that a source gives for a run of interactions, each with its operation and what the
/// clock showed.
pub open spec fn keys_for(
    source: KeySourceModel,
    interactions: Seq<(Seq<char>, Option<u128>)>,
) -> Seq<Seq<char>>
    decreases interactions.len(),
{
    if interactions.len() == 0 {
        Seq::empty()
    } else {
        let (operation, nanos) = interactions[0];
        let key = source.next_key(operation, nanos);
        seq![key] + keys_for(source.having_given(key), interactions.skip(1))
    }
}

/// Separate interactions have separate keys: no two keys of one source are equal, nor is one of
/// them equal to a key that was given before, whatever the clock shows.
pub proof fn separate_interactions_have_separate_keys(
    source: KeySourceModel,
    interactions: Seq<(Seq<char>, Option<u128>)>,
)
    ensures
        keys_for(source, interactions).len() == interactions.len(),
        keys_for(source, interactions).no_duplicates(),
        forall|i: int|
            0 <= i < interactions.len() ==> !source.given.contains(
                #[trigger] keys_for(source, interactions)[i],
            ),
    decreases interactions.len(),
{
    if interactions.len() > 0 {
        let (operation, nanos) = interactions[0];
        let key = source.next_key(operation, nanos);
        let after = source.having_given(key);
        let rest = keys_for(after, interactions.skip(1));
        let keys = keys_for(source, interactions);
        next_key_is_new(source, operation, nanos);
        separate_interactions_have_separate_keys(after, interactions.skip(1));
        assert(keys == seq![key] + rest);
        assert(after.given[source.given.len() as int] == key);
        assert forall|i: int| 0 <= i < interactions.len() implies !source.given.contains(
            #[trigger] keys[i],
        ) by {
            if i > 0 {
                assert(!after.given.contains(rest[i - 1]));
                if source.given.contains(keys[i]) {
                    let at = choose|at: int|
                        0 <= at < source.given.len() && source.given[at] == keys[i];
                    assert(after.given[at] == keys[i]);
                }
            }
        }
        assert forall|i: int, j: int| 0 <= i < j < keys.len() implies keys[i] != keys[j] by {
            assert(!after.given.contains(rest[j - 1]));
            if i > 0 {
                assert(keys[i] == rest[i - 1] && keys[j] == rest[j - 1]);
            }
        }
    }
}

/// Whether every part of an idempotency key but the last holds no sign that separates parts.
spec fn has_no_dash(text: Seq<char>) -> bool {
    !text.contains('-')
}

proof fn decimals_have_no_dash(value: nat)
    ensures
        has_no_dash(decimal_text(value)),
    decreases value,
{
    if value >= 10 {
        decimals_have_no_dash(value / 10);
    }
    let text = decimal_text(value);
    assert forall|i: int| 0 <= i < text.len() implies text[i] != '-' by {
        if value >= 10 {
            let before = decimal_text(value / 10);
            if i < before.len() {
                assert(before.contains(before[i]));
            }
        }
    }
}

proof fn last_dash_splits(
    left: Seq<char>,
    right: Seq<char>,
    left_rest: Seq<char>,
    right_rest: Seq<char>,
)
    requires
        has_no_dash(left_rest),
        has_no_dash(right_rest),
        left + "-"@ + left_rest == right + "-"@ + right_rest,
    ensures
        left == right,
        left_rest == right_rest,
{
    reveal_strlit("-");
    let whole = left + "-"@ + left_rest;
    let other = right + "-"@ + right_rest;
    assert(whole.len() == left.len() + 1 + left_rest.len());
    assert(other.len() == right.len() + 1 + right_rest.len());
    if left.len() < right.len() {
        assert(other[right.len() as int] == '-');
        assert(whole[right.len() as int] == left_rest[right.len() - left.len() - 1]);
        assert(left_rest.contains(left_rest[right.len() - left.len() - 1]));
    }
    if right.len() < left.len() {
        assert(whole[left.len() as int] == '-');
        assert(other[left.len() as int] == right_rest[left.len() - right.len() - 1]);
        assert(right_rest.contains(right_rest[left.len() - right.len() - 1]));
    }
    assert(left =~= whole.take(left.len() as int));
    assert(right =~= other.take(right.len() as int));
    assert(left_rest =~= whole.skip((left.len() + 1) as int));
    assert(right_rest =~= other.skip((right.len() + 1) as int));
}

/// A key tells its operation, its process and its point in time: two keys are equal only where
/// all three are.
pub proof fn keys_tell_their_parts(
    operation: Seq<char>,
    process: u32,
    nanos: nat,
    other_operation: Seq<char>,
    other_process: u32,
    other_nanos: nat,
)
    requires
        key_text(operation, process, nanos) == key_text(
            other_operation,
            other_process,
            other_nanos,
        ),
    ensures
        operation == other_operation,
        process == other_process,
        nanos == other_nanos,
{
    let prefix = "jcode-platform-"@;
    let left = prefix + operation + "-"@ + decimal_text(process as nat);
    let right = prefix + other_operation + "-"@ + decimal_text(other_process as nat);
    decimals_have_no_dash(nanos);
    decimals_have_no_dash(other_nanos);
    decimals_have_no_dash(process as nat);
    decimals_have_no_dash(other_process as nat);
    last_dash_splits(left, right, decimal_text(nanos), decimal_text(other_nanos));
    decimal_text_is_injective(nanos, other_nanos);
    last_dash_splits(
        prefix + operation,
        prefix + other_operation,
        decimal_text(process as nat),
        decimal_text(other_process as nat),
    );
    decimal_text_is_injective(process as nat, other_process as nat);
    assert(operation =~= (prefix + operation).skip(prefix.len() as int));
    assert(other_operation =~= (prefix + other_operation).skip(prefix.len() as int));
}

/// A key names the operation, the process and what the clock shows, unless that key was given
/// before; a clock that cannot be read shows zero. Where it was given before, the key names a later
/// point, with nothing free between.
pub proof fn keys_name_what_the_clock_shows(
    source: KeySourceModel,
    operation: Seq<char>,
    nanos: u128,
)
    ensures
        ({
            let key = "jcode-platform-"@ + operation + "-"@ + decimal_text(source.process as nat)
                + "-"@ + decimal_text(nanos as nat);
            !source.given.contains(key) ==> source.next_key(operation, Some(nanos)) == key
        }),
        source.next_key(operation, None) == source.next_key(operation, Some(0)),
        exists|point: nat|
            nanos <= point && source.next_key(operation, Some(nanos)) == "jcode-platform-"@
                + operation + "-"@ + decimal_text(source.process as nat) + "-"@
                + #[trigger] decimal_text(point),
{
    let from = nanos as nat;
    if !source.given.contains(key_text(operation, source.process, from)) {
        assert(source.first_free(operation, from, from));
        let point = choose|point: nat| source.first_free(operation, from, point);
        assert(source.first_free(operation, from, point));
        if point != from {
            assert(source.given.contains(key_text(operation, source.process, from)));
        }
    }
    let free = free_point_is_found(source, operation, from, from);
    assert(source.first_free(operation, from, free));
    let point = choose|point: nat| source.first_free(operation, from, point);
    assert(source.first_free(operation, from, point));
    assert(source.next_key(operation, Some(nanos)) == "jcode-platform-"@ + operation + "-"@
        + decimal_text(source.process as nat) + "-"@ + decimal_text(point));
}

/// A key that was given is kept behind those before it, for the same process.
pub proof fn given_keys_are_kept(source: KeySourceModel, key: Seq<char>, earlier: Seq<char>)
    ensures
        source.having_given(key).given.contains(key),
        source.having_given(key).given.last() == key,
        source.given.contains(earlier) ==> source.having_given(key).given.contains(earlier),
        source.having_given(key).given.len() == source.given.len() + 1,
        source.having_given(key).process == source.process,
{
    let given = source.having_given(key).given;
    assert(given[source.given.len() as int] == key);
    if source.given.contains(earlier) {
        let at = choose|at: int| 0 <= at < source.given.len() && source.given[at] == earlier;
        assert(given[at] == earlier);
    }
}

} // verus!

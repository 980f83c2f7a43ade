use vstd::prelude::*;
use crate::player::Position;
use crate::text::same_text;
use crate::scoring::{percentage, percentage_of};

verus! {

/// The balance of defensive and attacking responsibility taken in a role.
#[derive(Debug, Clone, Copy, PartialEq, Eq, Hash, Structural)]
pub enum Duty {
    Defend,
    Support,
    Attack,
    /// Taken by goalkeepers only.
    Automatic,
}

impl Duty {
    /// The canonical name of the duty.
    pub open spec fn name(self) -> Seq<char> {
        match self {
            Duty::Defend => "Defend"@,
            Duty::Support => "Support"@,
            Duty::Attack => "Attack"@,
            Duty::Automatic => "Automatic"@,
        }
    }

    /// Place of the duty in the order Defend, Support, Attack, Automatic.
    pub open spec fn ord(self) -> int {
        match self {
            Duty::Defend => 0,
            Duty::Support => 1,
            Duty::Attack => 2,
            Duty::Automatic => 3,
        }
    }

    /// The duty with the given canonical name.
    pub fn from_name(s: &str) -> (r: Option<Duty>)
        ensures
            match r {
                Some(d) => d.name() == s@,
                None => forall|d: Duty| #[trigger] d.name() != s@,
            },
            forall|d: Duty| #[trigger] d.name() == s@ ==> r == Some(d),
    {
        let r = if same_text(s, "Defend") {
            Some(Duty::Defend)
        } else if same_text(s, "Support") {
            Some(Duty::Support)
        } else if same_text(s, "Attack") {
            Some(Duty::Attack)
        } else if same_text(s, "Automatic") {
            Some(Duty::Automatic)
        } else {
            None
        };
        proof {
            assert forall|d: Duty| #[trigger] d.name() == s@ implies r == Some(d) by {
                if let Some(q) = r {
                    lemma_duty_names_distinct(d, q);
                }
            }
        }
        r
    }

    pub fn as_str(&self) -> (r: &'static str)
        ensures
            r@ == self.name(),
    {
        match self {
            Duty::Defend => "Defend",
            Duty::Support => "Support",
            Duty::Attack => "Attack",
            Duty::Automatic => "Automatic",
        }
    }
}


/// The largest weight, standing for 1.0: weights are counted in thousandths.
pub const FULL_WEIGHT: u32 = 1000;

/// The view of a list of (name, weight) entries.
pub open spec fn entries_view(v: Seq<(String, u32)>) -> Seq<(Seq<char>, u32)> {
    v.map_values(|e: (String, u32)| (e.0@, e.1))
}

/// No two entries share a name, every weight is at most `FULL_WEIGHT`, and the
/// number of entries fits in 32 bits.
pub open spec fn valid_entries(s: Seq<(Seq<char>, u32)>) -> bool {
    &&& s.len() <= u32::MAX
    &&& forall|i: int| 0 <= i < s.len() ==> #[trigger] s[i].1 <= FULL_WEIGHT
    &&& forall|i: int, j: int| 0 <= i < s.len() && 0 <= j < s.len() && i != j
        ==> #[trigger] s[i].0 != #[trigger] s[j].0
}

/// Whether some entry carries the name.
pub open spec fn has_name(s: Seq<(Seq<char>, u32)>, name: Seq<char>) -> bool {
    exists|i: int| 0 <= i < s.len() && #[trigger] s[i].0 == name
}

/// The weight that the entries give the name, 0 for a name without an entry.
pub open spec fn weight_of(s: Seq<(Seq<char>, u32)>, name: Seq<char>) -> u32 {
    if has_name(s, name) {
        s[choose|i: int| 0 <= i < s.len() && #[trigger] s[i].0 == name].1
    } else {
        0
    }
}

/// A mapping from attribute names to weights in thousandths (0 to 1000 for
/// 0.0 to 1.0), kept in the order in which the names were first inserted.
#[derive(Debug)]
pub struct AttributeWeights {
    entries: Vec<(String, u32)>,
}

impl Clone for AttributeWeights {
    fn clone(&self) -> (r: AttributeWeights) {
        proof {
            use_type_invariant(self);
        }
        let mut entries: Vec<(String, u32)> = Vec::new();
        let mut i: usize = 0;
        while i < self.entries.len()
            invariant
                i <= self.entries@.len(),
                entries@.len() == i,
                entries_view(entries@) =~= entries_view(self.entries@).take(i as int),
            decreases self.entries@.len() - i,
        {
            let e = &self.entries[i];
            let name = e.0.clone();
            let ghost before = entries@;
            entries.push((name, e.1));
            proof {
                assert(entries@ == before.push((name, e.1)));
                assert(entries_view(entries@) =~= entries_view(self.entries@).take(i as int + 1));
            }
            i = i + 1;
        }
        proof {
            assert(entries_view(self.entries@).take(i as int) =~= entries_view(self.entries@));
        }
        AttributeWeights { entries }
    }
}

impl View for AttributeWeights {
    type V = Seq<(Seq<char>, u32)>;

    closed spec fn view(&self) -> Seq<(Seq<char>, u32)> {
        entries_view(self.entries@)
    }
}

impl AttributeWeights {
    #[verifier::type_invariant]
    spec fn inv(&self) -> bool {
        valid_entries(entries_view(self.entries@))
    }

    /// Every map is a valid mapping: the type keeps this invariant.
    pub open spec fn wf(&self) -> bool {
        valid_entries(self@)
    }

    /// The empty map.
    pub fn new() -> (r: AttributeWeights)
        ensures
            r@ == Seq::<(Seq<char>, u32)>::empty(),
            r.wf(),
    {
        let r = AttributeWeights { entries: Vec::new() };
        assert(r@ =~= Seq::<(Seq<char>, u32)>::empty());
        r
    }

    /// The number of entries; a call also makes the invariant `wf` known.
    pub fn len(&self) -> (r: usize)
        ensures
            r == self@.len(),
            self.wf(),
    {
        proof {
            use_type_invariant(self);
        }
        self.entries.len()
    }

    /// The name and weight of the entry at place `i`.
    pub fn entry(&self, i: usize) -> (r: (&str, u32))
        requires
            i < self@.len(),
        ensures
            r.0@ == self@[i as int].0,
            r.1 == self@[i as int].1,
    {
        let e = &self.entries[i];
        (e.0.as_str(), e.1)
    }

    /// The place of the entry with the given name.
    fn find(&self, name: &str) -> (r: Option<usize>)
        ensures
            match r {
                Some(i) => i < self@.len() && self@[i as int].0 == name@,
                None => !has_name(self@, name@),
            },
    {
        let mut i: usize = 0;
        while i < self.entries.len()
            invariant
                i <= self@.len(),
                self@.len() == self.entries@.len(),
                forall|j: int| 0 <= j < i ==> self@[j].0 != name@,
            decreases self.entries@.len() - i,
        {
            assert(self@[i as int].0 == self.entries@[i as int].0@);
            if same_text(self.entries[i].0.as_str(), name) {
                return Some(i);
            }
            i = i + 1;
        }
        None
    }

    /// The weight of the named attribute, or `None` when it has no entry.
    pub fn get(&self, name: &str) -> (r: Option<u32>)
        ensures
            r == (if has_name(self@, name@) { Some(weight_of(self@, name@)) } else { None::<u32> }),
    {
        proof {
            use_type_invariant(self);
        }
        match self.find(name) {
            Some(i) => {
                proof {
                    let j = choose|j: int| 0 <= j < self@.len() && #[trigger] self@[j].0 == name@;
                    assert(self@[j].0 == name@);
                }
                assert(self@[i as int].1 == self.entries@[i as int].1);
                Some(self.entries[i].1)
            }
            None => None,
        }
    }

    /// Sets the weight of the named attribute: an existing entry keeps its place,
    /// a new name is appended.
    pub fn insert(&mut self, name: String, weight: u32)
        requires
            weight <= FULL_WEIGHT,
            old(self)@.len() < u32::MAX,
        ensures
            final(self).wf(),
            has_name(old(self)@, name@) ==> exists|i: int| 0 <= i < old(self)@.len()
                && old(self)@[i].0 == name@ && final(self)@ == old(self)@.update(i, (name@, weight)),
            !has_name(old(self)@, name@) ==> final(self)@ == old(self)@.push((name@, weight)),
    {
        proof {
            use_type_invariant(&*self);
        }
        let found = self.find(name.as_str());
        let mut entries: Vec<(String, u32)> = Vec::new();
        std::mem::swap(&mut entries, &mut self.entries);
        let ghost before = entries_view(entries@);
        assert(before == old(self)@);
        match found {
            Some(i) => {
                entries.set(i, (name, weight));
                proof {
                    assert(entries_view(entries@) =~= before.update(i as int, (name@, weight)));
                }
            }
            None => {
                let ghost key = name@;
                entries.push((name, weight));
                proof {
                    assert(entries_view(entries@) =~= before.push((key, weight)));
                    assert forall|j: int| 0 <= j < before.len() implies #[trigger] entries_view(entries@)[j].0 != key by {
                        assert(before[j].0 != key);
                    }
                }
            }
        }
        self.entries = entries;
    }
}

/// A scoring profile: how much each attribute matters for a way of playing.
#[derive(Debug, Clone)]
pub struct Role {
    pub id: Option<i64>,
    pub name: String,
    pub position: Position,
    pub duty: Duty,
    pub description: Option<String>,
    pub attribute_weights: AttributeWeights,
    pub is_custom: bool,
}

impl Role {
    /// A built-in role.
    pub fn new(name: String, position: Position, duty: Duty, attribute_weights: AttributeWeights) -> (r: Role)
        ensures
            r.id is None,
            r.name == name,
            r.position == position,
            r.duty == duty,
            r.description is None,
            r.attribute_weights == attribute_weights,
            !r.is_custom,
    {
        Role { id: None, name, position, duty, description: None, attribute_weights, is_custom: false }
    }

    /// A role defined by a user.
    pub fn new_custom(name: String, position: Position, duty: Duty, attribute_weights: AttributeWeights) -> (r: Role)
        ensures
            r.id is None,
            r.name == name,
            r.position == position,
            r.duty == duty,
            r.description is None,
            r.attribute_weights == attribute_weights,
            r.is_custom,
    {
        Role { id: None, name, position, duty, description: None, attribute_weights, is_custom: true }
    }

    /// The weight of the named attribute; 0 when the role does not weight it.
    pub fn get_weight(&self, attribute: &str) -> (r: u32)
        ensures
            r == weight_of(self.attribute_weights@, attribute@),
            !has_name(self.attribute_weights@, attribute@) ==> r == 0,
    {
        match self.attribute_weights.get(attribute) {
            Some(w) => w,
            None => 0,
        }
    }
}


/// The fit of a player for a role: the raw score and its percentage, in
/// hundredths, of the role's maximum score.
#[derive(Debug, Clone)]
pub struct RoleSuitability {
    pub role_id: i64,
    pub role_name: String,
    pub score: u64,
    pub percentage: u32,
}

impl RoleSuitability {
    /// Records a raw score with its percentage of `max_score`.
    pub fn new(role_id: i64, role_name: String, score: u64, max_score: u64) -> (r: RoleSuitability)
        ensures
            r.role_id == role_id,
            r.role_name == role_name,
            r.score == score,
            r.percentage == percentage_of(score as int, max_score as int),
    {
        let percentage = percentage(score, max_score);
        RoleSuitability { role_id, role_name, score, percentage }
    }
}


#[verifier::external_type_specification]
#[verifier::external_body]
pub struct ExJsonError(serde_json::Error);

/// What serde_json reads from the text as a vector of (string, integer) pairs:
/// the entries, or `None` when it refuses the text.
pub uninterp spec fn weights_from_json(text: Seq<char>) -> Option<Seq<(Seq<char>, u32)>>;

/// Relies on serde_json::to_string: it fails only where a `Serialize` impl
/// fails or a map has non-string keys, neither of which a vector of (string,
/// integer) pairs has; the text it writes reads back, through
/// serde_json::from_str, as the same pairs.
#[verifier::external_body]
fn entries_to_json(entries: &Vec<(String, u32)>) -> (r: Result<String, serde_json::Error>)
    ensures
        r is Ok,
        r matches Ok(t) ==> weights_from_json(t@) == Some(entries_view(entries@)),
{
    serde_json::to_string(entries)
}

/// Relies on serde_json::from_str: parsing is a function of the text alone.
#[verifier::external_body]
fn entries_from_json(s: &str) -> (r: Result<Vec<(String, u32)>, serde_json::Error>)
    ensures
        match r {
            Ok(v) => weights_from_json(s@) == Some(entries_view(v@)),
            Err(_) => weights_from_json(s@) is None,
        },
{
    serde_json::from_str(s)
}

/// Why an encoded weight map was refused.
#[derive(Debug, Clone, Copy, PartialEq, Eq, Structural)]
pub enum WeightsError {
    /// The text could not be written or read as JSON of (name, weight) pairs.
    Malformed,
    /// Two entries share a name.
    DuplicateName,
    /// A weight is above `FULL_WEIGHT`.
    WeightOutOfRange,
    /// More entries than fit in 32 bits.
    TooManyEntries,
}

/// Whether some two distinct entries share a name.
pub open spec fn has_duplicate_name(s: Seq<(Seq<char>, u32)>) -> bool {
    exists|i: int, j: int| 0 <= i < j < s.len() && #[trigger] s[i].0 == #[trigger] s[j].0
}

/// Whether some weight is above `FULL_WEIGHT`.
pub open spec fn has_heavy_weight(s: Seq<(Seq<char>, u32)>) -> bool {
    exists|i: int| 0 <= i < s.len() && #[trigger] s[i].1 > FULL_WEIGHT
}

impl AttributeWeights {
    /// Builds the map from a list of entries, which must be a valid mapping.
    pub fn from_entries(entries: Vec<(String, u32)>) -> (r: Result<AttributeWeights, WeightsError>)
        ensures
            ({
                let s = entries_view(entries@);
                match r {
                    Ok(w) => valid_entries(s) && w@ == s && w.wf(),
                    Err(WeightsError::TooManyEntries) => s.len() > u32::MAX,
                    Err(WeightsError::WeightOutOfRange) => s.len() <= u32::MAX && has_heavy_weight(s),
                    Err(WeightsError::DuplicateName) => s.len() <= u32::MAX && !has_heavy_weight(s)
                        && has_duplicate_name(s),
                    Err(WeightsError::Malformed) => false,
                }
            }),
    {
        let ghost s = entries_view(entries@);
        let n = entries.len();
        if n > 0xffff_ffff {
            return Err(WeightsError::TooManyEntries);
        }
        let mut i: usize = 0;
        while i < n
            invariant
                n == entries@.len(),
                s == entries_view(entries@),
                n <= u32::MAX,
                i <= n,
                forall|k: int| 0 <= k < i ==> #[trigger] s[k].1 <= FULL_WEIGHT,
            decreases n - i,
        {
            assert(s[i as int].1 == entries@[i as int].1);
            if entries[i].1 > FULL_WEIGHT {
                assert(s[i as int].1 > FULL_WEIGHT);
                return Err(WeightsError::WeightOutOfRange);
            }
            i = i + 1;
        }
        let mut i: usize = 0;
        while i < n
            invariant
                n == entries@.len(),
                s == entries_view(entries@),
                n <= u32::MAX,
                forall|k: int| 0 <= k < n ==> #[trigger] s[k].1 <= FULL_WEIGHT,
                i <= n,
                forall|a: int, b: int| 0 <= a < b < n && a < i ==> #[trigger] s[a].0 != #[trigger] s[b].0,
            decreases n - i,
        {
            let mut j: usize = i + 1;
            while j < n
                invariant
                    n == entries@.len(),
                    s == entries_view(entries@),
                    n <= u32::MAX,
                    forall|k: int| 0 <= k < n ==> #[trigger] s[k].1 <= FULL_WEIGHT,
                    i < n,
                    i + 1 <= j <= n,
                    forall|a: int, b: int| 0 <= a < b < n && a < i ==> #[trigger] s[a].0 != #[trigger] s[b].0,
                    forall|b: int| i < b < j ==> s[i as int].0 != #[trigger] s[b].0,
                decreases n - j,
            {
                assert(s[i as int].0 == entries@[i as int].0@);
                assert(s[j as int].0 == entries@[j as int].0@);
                if entries[i].0 == entries[j].0 {
                    assert(s[i as int].0 == s[j as int].0);
                    return Err(WeightsError::DuplicateName);
                }
                j = j + 1;
            }
            i = i + 1;
        }
        let r = AttributeWeights { entries };
        proof {
            assert forall|a: int, b: int| 0 <= a < s.len() && 0 <= b < s.len() && a != b
                implies #[trigger] s[a].0 != #[trigger] s[b].0 by {
                if a > b {
                    assert(s[b].0 != s[a].0);
                }
            }
        }
        Ok(r)
    }

    /// Encodes the map as JSON text for storage; `from_json` reads the text
    /// back as this very map.
    pub fn to_json(&self) -> (r: Result<String, WeightsError>)
        ensures
            r is Ok,
            r matches Ok(t) ==> weights_from_json(t@) == Some(self@),
    {
        match entries_to_json(&self.entries) {
            Ok(t) => Ok(t),
            Err(_) => Err(WeightsError::Malformed),
        }
    }

    /// Decodes a map from JSON text.
    pub fn from_json(s: &str) -> (r: Result<AttributeWeights, WeightsError>)
        ensures
            weights_from_json(s@) is None ==> r == Err::<AttributeWeights, WeightsError>(WeightsError::Malformed),
            weights_from_json(s@) matches Some(e) ==> (valid_entries(e) <==> r is Ok),
            weights_from_json(s@) matches Some(e) ==> (r matches Ok(w) ==> w@ == e && w.wf()),
            weights_from_json(s@) matches Some(e) ==> (r matches Err(x) ==> x != WeightsError::Malformed),
    {
        match entries_from_json(s) {
            Ok(entries) => Self::from_entries(entries),
            Err(_) => Err(WeightsError::Malformed),
        }
    }
}


/// Distinct duties have distinct names.
pub proof fn lemma_duty_names_distinct(d: Duty, e: Duty)
    ensures
        d.name() == e.name() ==> d == e,
{
    reveal_strlit("Defend");
    reveal_strlit("Support");
    reveal_strlit("Attack");
    reveal_strlit("Automatic");
    if d.name() == e.name() {
        assert(d.name().len() == e.name().len());
        assert(d.name()[0] == e.name()[0]);
    }
}


} // verus!

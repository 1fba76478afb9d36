//! The key set as plain values, and lookup by key id.
use vstd::prelude::*;

verus! {

/// Family-specific public components of a key record, base64url-encoded.
#[derive(Clone, Debug)]
pub enum KeyParams {
    Rsa { n: String, e: String },
    EllipticCurve { x: String, y: String },
    Other,
}

/// One public-key record of a key set.
#[derive(Clone, Debug)]
pub struct KeyRecord {
    pub kid: Option<String>,
    pub params: KeyParams,
}

/// An ordered collection of public-key records.
#[derive(Clone, Debug)]
pub struct KeySet {
    pub keys: Vec<KeyRecord>,
}

/// Mathematical model of `KeyParams`.
pub enum ParamsModel {
    Rsa { n: Seq<char>, e: Seq<char> },
    EllipticCurve { x: Seq<char>, y: Seq<char> },
    Other,
}

/// Mathematical model of `KeyRecord`.
pub struct RecordModel {
    pub kid: Option<Seq<char>>,
    pub params: ParamsModel,
}

pub open spec fn opt_str_view(o: Option<String>) -> Option<Seq<char>> {
    match o {
        Some(s) => Some(s@),
        None => None,
    }
}

impl View for KeyParams {
    type V = ParamsModel;

    open spec fn view(&self) -> ParamsModel {
        match self {
            KeyParams::Rsa { n, e } => ParamsModel::Rsa { n: n@, e: e@ },
            KeyParams::EllipticCurve { x, y } => ParamsModel::EllipticCurve { x: x@, y: y@ },
            KeyParams::Other => ParamsModel::Other,
        }
    }
}

impl View for KeyRecord {
    type V = RecordModel;

    open spec fn view(&self) -> RecordModel {
        RecordModel { kid: opt_str_view(self.kid), params: self.params@ }
    }
}

impl View for KeySet {
    type V = Seq<RecordModel>;

    open spec fn view(&self) -> Seq<RecordModel> {
        self.keys@.map_values(|r: KeyRecord| r@)
    }
}

/// A record matches a key id when it carries exactly that key id.
pub open spec fn record_matches(r: RecordModel, kid: Seq<char>) -> bool {
    r.kid == Some(kid)
}

/// The position of the first record at or after `i` that carries `kid`.
pub open spec fn find_from(keys: Seq<RecordModel>, kid: Seq<char>, i: int) -> Option<int>
    decreases keys.len() - i,
{
    if i < 0 || i >= keys.len() {
        None
    } else if record_matches(keys[i], kid) {
        Some(i)
    } else {
        find_from(keys, kid, i + 1)
    }
}

/// The position of the first record that carries `kid`, if any.
pub open spec fn first_match(keys: Seq<RecordModel>, kid: Seq<char>) -> Option<int> {
    find_from(keys, kid, 0)
}

/// What `find_from` returns is a matching position, and nothing before it matches.
pub proof fn lemma_find_from(keys: Seq<RecordModel>, kid: Seq<char>, i: int)
    requires
        0 <= i,
    ensures
        match find_from(keys, kid, i) {
            Some(j) => i <= j < keys.len() && record_matches(keys[j], kid) && forall|k: int|
                i <= k < j ==> !record_matches(#[trigger] keys[k], kid),
            None => forall|k: int| i <= k < keys.len() ==> !record_matches(#[trigger] keys[k], kid),
        },
    decreases keys.len() - i,
{
    if i < keys.len() && !record_matches(keys[i], kid) {
        lemma_find_from(keys, kid, i + 1);
    }
}

/// The first match is a record carrying the key id, and exists whenever one does.
pub proof fn lemma_first_match(keys: Seq<RecordModel>, kid: Seq<char>)
    ensures
        match first_match(keys, kid) {
            Some(j) => 0 <= j < keys.len() && record_matches(keys[j], kid) && forall|k: int|
                0 <= k < j ==> !record_matches(#[trigger] keys[k], kid),
            None => forall|k: int| 0 <= k < keys.len() ==> !record_matches(#[trigger] keys[k], kid),
        },
{
    lemma_find_from(keys, kid, 0);
}

impl KeyParams {
    /// A copy with the same components.
    pub fn duplicate(&self) -> (r: KeyParams)
        ensures
            r@ == self@,
    {
        match self {
            KeyParams::Rsa { n, e } => KeyParams::Rsa { n: n.clone(), e: e.clone() },
            KeyParams::EllipticCurve { x, y } => KeyParams::EllipticCurve {
                x: x.clone(),
                y: y.clone(),
            },
            KeyParams::Other => KeyParams::Other,
        }
    }
}

impl KeyRecord {
    /// A copy with the same key id and components.
    pub fn duplicate(&self) -> (r: KeyRecord)
        ensures
            r@ == self@,
    {
        let kid = match &self.kid {
            Some(k) => Some(k.clone()),
            None => None,
        };
        KeyRecord { kid, params: self.params.duplicate() }
    }
}

impl KeySet {
    /// A copy holding the same records in the same order.
    pub fn duplicate(&self) -> (r: KeySet)
        ensures
            r@ == self@,
    {
        let mut keys: Vec<KeyRecord> = Vec::new();
        let mut i: usize = 0;
        while i < self.keys.len()
            invariant
                i <= self.keys@.len(),
                keys@.len() == i,
                forall|k: int| 0 <= k < i ==> (#[trigger] keys@[k])@ == self.keys@[k]@,
            decreases self.keys@.len() - i,
        {
            keys.push(self.keys[i].duplicate());
            i = i + 1;
        }
        let r = KeySet { keys };
        assert(r@ =~= self@);
        r
    }

    /// The first record that carries key id `kid` (records without a key id never match).
    pub fn find(&self, kid: &str) -> (r: Option<&KeyRecord>)
        ensures
            match first_match(self@, kid@) {
                Some(j) => r == Some(&self.keys@[j]),
                None => r is None,
            },
    {
        proof {
            lemma_first_match(self@, kid@);
        }
        let key = kid.to_owned();
        let mut i: usize = 0;
        while i < self.keys.len()
            invariant
                i <= self.keys@.len(),
                key@ == kid@,
                first_match(self@, kid@) == find_from(self@, kid@, i as int),
            decreases self.keys@.len() - i,
        {
            let rec = &self.keys[i];
            let hit = match &rec.kid {
                Some(k) => *k == key,
                None => false,
            };
            assert(self@[i as int] == rec@);
            if hit {
                return Some(rec);
            }
            i = i + 1;
        }
        None
    }
}

} // verus!

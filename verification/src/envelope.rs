use vstd::prelude::*;
use vstd::string::StringExecFns;
use crate::json::{
    Json, lookup, string_field, opt_string_field, bool_field, i32_field, u64_field,
    read_string_field, read_opt_string_field, read_bool_field, read_i32_field, read_u64_field,
};

verus! {

broadcast use vstd::string::group_string_axioms;

/// One SIM slot's description inside a configuration snapshot.
#[derive(Debug, Clone, PartialEq, Eq)]
pub struct SimInfo {
    pub carrier_name: String,
    pub country_iso: String,
    pub icc_id: String,
    pub number: String,
    pub sim_slot_index: i32,
    pub subscription_id: i32,
}

/// Whether no two pairs share a key.
pub open spec fn pair_keys_unique<T>(pairs: Seq<(String, T)>) -> bool {
    forall|i: int, k: int|
        0 <= i < k < pairs.len() ==> (#[trigger] pairs[i]).0@ != (#[trigger] pairs[k]).0@
}

/// Decodes a SIM description: an object with four string fields and two
/// integral fields within `i32` range; anything else fails.
pub open spec fn sim_info_of_json(j: Json) -> Option<SimInfo> {
    match j {
        Json::Obj(pairs) => match (
            string_field(pairs@, "carrier_name"@),
            string_field(pairs@, "country_iso"@),
            string_field(pairs@, "icc_id"@),
            string_field(pairs@, "number"@),
            i32_field(pairs@, "sim_slot_index"@),
            i32_field(pairs@, "subscription_id"@),
        ) {
            (
                Some(carrier_name),
                Some(country_iso),
                Some(icc_id),
                Some(number),
                Some(sim_slot_index),
                Some(subscription_id),
            ) => Some(
                SimInfo {
                    carrier_name,
                    country_iso,
                    icc_id,
                    number,
                    sim_slot_index,
                    subscription_id,
                },
            ),
            _ => None,
        },
        _ => None,
    }
}

/// Reads a SIM description out of a JSON value.
pub fn decode_sim_info(j: &Json) -> (r: Option<SimInfo>)
    ensures
        r == sim_info_of_json(*j),
{
    match j {
        Json::Obj(pairs) => {
            let carrier_name = match read_string_field(pairs, "carrier_name") {
                Some(s) => s,
                None => {
                    return None;
                },
            };
            let country_iso = match read_string_field(pairs, "country_iso") {
                Some(s) => s,
                None => {
                    return None;
                },
            };
            let icc_id = match read_string_field(pairs, "icc_id") {
                Some(s) => s,
                None => {
                    return None;
                },
            };
            let number = match read_string_field(pairs, "number") {
                Some(s) => s,
                None => {
                    return None;
                },
            };
            let sim_slot_index = match read_i32_field(pairs, "sim_slot_index") {
                Some(v) => v,
                None => {
                    return None;
                },
            };
            let subscription_id = match read_i32_field(pairs, "subscription_id") {
                Some(v) => v,
                None => {
                    return None;
                },
            };
            Some(
                SimInfo {
                    carrier_name,
                    country_iso,
                    icc_id,
                    number,
                    sim_slot_index,
                    subscription_id,
                },
            )
        },
        _ => None,
    }
}

/// The first SIM description bound to `key` among `pairs`, if any.
pub open spec fn sim_lookup(pairs: Seq<(String, SimInfo)>, key: Seq<char>) -> Option<SimInfo>
    decreases pairs.len(),
{
    if pairs.len() == 0 {
        None
    } else if pairs[0].0@ == key {
        Some(pairs[0].1)
    } else {
        sim_lookup(pairs.drop_first(), key)
    }
}

/// A found binding gives a witness index; used to turn a lookup hit into
/// evidence against key uniqueness.
pub proof fn lemma_sim_lookup_index(pairs: Seq<(String, SimInfo)>, key: Seq<char>)
    requires
        sim_lookup(pairs, key) is Some,
    ensures
        exists|i: int| 0 <= i < pairs.len() && (#[trigger] pairs[i]).0@ == key,
    decreases pairs.len(),
{
    if pairs.len() > 0 && pairs[0].0@ != key {
        lemma_sim_lookup_index(pairs.drop_first(), key);
        let i = choose|i: int|
            0 <= i < pairs.drop_first().len() && (#[trigger] pairs.drop_first()[i]).0@ == key;
        assert(pairs[i + 1].0@ == key);
    }
}

/// The converse: a binding at some index means the lookup succeeds.
pub proof fn lemma_sim_lookup_some(pairs: Seq<(String, SimInfo)>, key: Seq<char>, i: int)
    requires
        0 <= i < pairs.len(),
        pairs[i].0@ == key,
    ensures
        sim_lookup(pairs, key) is Some,
    decreases pairs.len(),
{
    if pairs[0].0@ != key {
        lemma_sim_lookup_some(pairs.drop_first(), key, i - 1);
    }
}

/// The mapping from slot identifiers to SIM descriptions carried by a
/// configuration snapshot. Keys are unique; order carries no meaning.
#[derive(Debug, Clone, PartialEq, Eq)]
pub struct SimInfoList {
    pub pairs: Vec<(String, SimInfo)>,
}

impl View for SimInfoList {
    type V = Seq<(String, SimInfo)>;

    open spec fn view(&self) -> Seq<(String, SimInfo)> {
        self.pairs@
    }
}

impl SimInfoList {
    /// The key-uniqueness invariant.
    pub open spec fn wf(&self) -> bool {
        pair_keys_unique(self@)
    }

    /// An empty mapping.
    pub fn new() -> (r: SimInfoList)
        ensures
            r@ == Seq::<(String, SimInfo)>::empty(),
            r.wf(),
    {
        SimInfoList { pairs: Vec::new() }
    }

    /// The number of slots described.
    pub fn len(&self) -> (r: usize)
        ensures
            r == self@.len(),
    {
        self.pairs.len()
    }

    /// Whether some slot is keyed by `key`.
    pub fn contains_key(&self, key: &str) -> (r: bool)
        ensures
            r == (sim_lookup(self@, key@) is Some),
    {
        self.get(key).is_some()
    }

    /// The first SIM description keyed by `key`, if any.
    #[verifier::loop_isolation(false)]
    pub fn get<'a>(&'a self, key: &str) -> (r: Option<&'a SimInfo>)
        ensures
            match sim_lookup(self@, key@) {
                Some(v) => r matches Some(x) && *x == v,
                None => r is None,
            },
    {
        let n = self.pairs.len();
        let mut i: usize = 0;
        proof {
            assert(self@.skip(0) =~= self@);
        }
        while i < n
            invariant
                i <= n,
                sim_lookup(self@, key@) == sim_lookup(self@.skip(i as int), key@),
            decreases n - i,
        {
            let pair = &self.pairs[i];
            if crate::json::str_eq(pair.0.as_str(), key) {
                proof {
                    assert(self@.skip(i as int)[0] == self@[i as int]);
                    assert(sim_lookup(self@.skip(i as int), key@) == Some(self@[i as int].1));
                }
                return Some(&pair.1);
            }
            proof {
                assert(self@.skip(i as int)[0] == self@[i as int]);
                assert(self@.skip(i as int).drop_first() =~= self@.skip(i as int + 1));
            }
            i = i + 1;
        }
        proof {
            assert(self@.skip(n as int) =~= Seq::<(String, SimInfo)>::empty());
        }
        None
    }

    /// Adds a binding unless its key is already present; key uniqueness is
    /// preserved.
    pub fn insert(&mut self, key: String, value: SimInfo) -> (r: bool)
        ensures
            r == (sim_lookup(old(self)@, key@) is None),
            r ==> final(self)@ == old(self)@.push((key, value)),
            !r ==> final(self)@ == old(self)@,
            old(self).wf() ==> final(self).wf(),
    {
        if self.contains_key(key.as_str()) {
            false
        } else {
            proof {
                if old(self).wf() {
                    assert forall|i: int, k: int|
                        0 <= i < k < self@.push((key, value)).len() implies (#[trigger] self@.push(
                        (key, value),
                    )[i]).0@ != (#[trigger] self@.push((key, value))[k]).0@ by {
                        if k == self@.len() {
                            if self@.push((key, value))[i].0@ == key@ {
                                lemma_sim_lookup_some(self@, key@, i);
                            }
                        }
                    }
                }
            }
            self.pairs.push((key, value));
            true
        }
    }
}

/// Whether a JSON value is a well-formed slot mapping: an object whose every
/// value decodes as a SIM description and whose keys are unique.
pub open spec fn json_is_sim_list(j: Json) -> bool {
    match j {
        Json::Obj(entries) => {
            &&& forall|k: int|
                0 <= k < entries@.len() ==> sim_info_of_json((#[trigger] entries@[k]).1) is Some
            &&& pair_keys_unique(entries@)
        },
        _ => false,
    }
}

/// Whether the slot mapping `l` is exactly what the object entries `entries`
/// describe, key for key and slot for slot, in order.
pub open spec fn sim_list_matches(l: Seq<(String, SimInfo)>, entries: Seq<(String, Json)>) -> bool {
    &&& l.len() == entries.len()
    &&& forall|k: int|
        0 <= k < entries.len() ==> (#[trigger] l[k]).0 == entries[k].0 && sim_info_of_json(
            entries[k].1,
        ) == Some(l[k].1)
}

/// Reads a slot mapping out of a JSON value; an entry that is not a SIM
/// description, or a repeated key, fails the whole mapping.
#[verifier::loop_isolation(false)]
pub fn decode_sim_list(j: &Json) -> (r: Option<SimInfoList>)
    ensures
        r is Some <==> json_is_sim_list(*j),
        r matches Some(l) ==> l.wf() && (*j matches Json::Obj(entries) && sim_list_matches(
            l@,
            entries@,
        )),
{
    match j {
        Json::Obj(entries) => {
            let n = entries.len();
            let mut out = SimInfoList::new();
            let mut k: usize = 0;
            while k < n
                invariant
                    k <= n,
                    out.wf(),
                    out@.len() == k,
                    forall|i: int|
                        0 <= i < k ==> (#[trigger] out@[i]).0 == entries@[i].0
                            && sim_info_of_json(entries@[i].1) == Some(out@[i].1),
                decreases n - k,
            {
                let si = match decode_sim_info(&entries[k].1) {
                    Some(si) => si,
                    None => {
                        return None;
                    },
                };
                let key = entries[k].0.clone();
                let ghost key_view = key@;
                let inserted = out.insert(key, si);
                if !inserted {
                    proof {
                        lemma_sim_lookup_index(out@, key_view);
                        let i = choose|i: int|
                            0 <= i < out@.len() && (#[trigger] out@[i]).0@ == key_view;
                        assert(entries@[i].0@ == entries@[k as int].0@);
                        assert(!pair_keys_unique(entries@));
                    }
                    return None;
                }
                k = k + 1;
            }
            proof {
                assert forall|i: int, t: int|
                    0 <= i < t < entries@.len() implies (#[trigger] entries@[i]).0@ != (
                #[trigger] entries@[t]).0@ by {
                    assert(out@[i].0 == entries@[i].0);
                    assert(out@[t].0 == entries@[t].0);
                    assert(out@[i].0@ != out@[t].0@);
                }
                assert forall|i: int|
                    0 <= i < entries@.len() implies sim_info_of_json(
                    (#[trigger] entries@[i]).1,
                ) is Some by {
                    assert(sim_info_of_json(entries@[i].1) == Some(out@[i].1));
                }
            }
            Some(out)
        },
        _ => None,
    }
}

/// Writes a slot mapping as a JSON object that decodes back to it.
#[verifier::loop_isolation(false)]
pub fn json_of_sim_list(l: &SimInfoList) -> (j: Json)
    requires
        l.wf(),
    ensures
        json_is_sim_list(j),
        j matches Json::Obj(entries) && sim_list_matches(l@, entries@),
{
    let mut entries: Vec<(String, Json)> = Vec::new();
    let n = l.pairs.len();
    let mut k: usize = 0;
    while k < n
        invariant
            k <= n,
            entries@.len() == k,
            forall|i: int|
                0 <= i < k ==> (#[trigger] entries@[i]).0 == l@[i].0 && sim_info_of_json(
                    entries@[i].1,
                ) == Some(l@[i].1),
        decreases n - k,
    {
        let pair = &l.pairs[k];
        entries.push((pair.0.clone(), json_of_sim_info(&pair.1)));
        k = k + 1;
    }
    proof {
        assert forall|i: int, t: int|
            0 <= i < t < entries@.len() implies (#[trigger] entries@[i]).0@ != (
        #[trigger] entries@[t]).0@ by {
            assert(entries@[i].0 == l@[i].0);
            assert(entries@[t].0 == l@[t].0);
            assert(l@[i].0@ != l@[t].0@);
        }
    }
    Json::Obj(entries)
}

/// Writes a SIM description as a JSON object that decodes back to it.
pub fn json_of_sim_info(s: &SimInfo) -> (j: Json)
    ensures
        sim_info_of_json(j) == Some(*s),
{
    let mut pairs: Vec<(String, Json)> = Vec::new();
    pairs.push((String::from_str("carrier_name"), Json::Str(s.carrier_name.clone())));
    pairs.push((String::from_str("country_iso"), Json::Str(s.country_iso.clone())));
    pairs.push((String::from_str("icc_id"), Json::Str(s.icc_id.clone())));
    pairs.push((String::from_str("number"), Json::Str(s.number.clone())));
    pairs.push((String::from_str("sim_slot_index"), Json::Int(s.sim_slot_index as i64)));
    pairs.push((String::from_str("subscription_id"), Json::Int(s.subscription_id as i64)));
    let j = Json::Obj(pairs);
    proof {
        reveal_strlit("carrier_name");
        reveal_strlit("country_iso");
        reveal_strlit("icc_id");
        reveal_strlit("number");
        reveal_strlit("sim_slot_index");
        reveal_strlit("subscription_id");
        reveal_with_fuel(lookup, 8);
        assert(pairs@.len() == 6);
        assert("carrier_name"@.len() == 12);
        assert("country_iso"@.len() == 11);
        assert("icc_id"@.len() == 6);
        assert("number"@.len() == 6);
        assert("sim_slot_index"@.len() == 14);
        assert("subscription_id"@.len() == 15);
        assert("icc_id"@[0] == 'i' && "number"@[0] == 'n');
        assert(pairs@[0].0@ == "carrier_name"@);
        assert(lookup(pairs@, "carrier_name"@) == Some(pairs@[0].1));
        assert(lookup(pairs@, "country_iso"@) == Some(pairs@[1].1));
        assert(lookup(pairs@, "icc_id"@) == Some(pairs@[2].1));
        assert(lookup(pairs@, "number"@) == Some(pairs@[3].1));
        assert(lookup(pairs@, "sim_slot_index"@) == Some(pairs@[4].1));
        assert(lookup(pairs@, "subscription_id"@) == Some(pairs@[5].1));
        assert(sim_info_of_json(j) == Some(*s));
    }
    j
}

/// A device configuration snapshot: seven feature flags, three free-text
/// extras, and an optional mapping from slot identifier to SIM description.
#[derive(Debug, Clone, PartialEq, Eq)]
pub struct Config {
    pub enable_api_battery_query: bool,
    pub enable_api_call_query: bool,
    pub enable_api_clone: bool,
    pub enable_api_contact_query: bool,
    pub enable_api_sms_query: bool,
    pub enable_api_sms_send: bool,
    pub enable_api_wol: bool,
    pub extra_device_mark: Option<String>,
    pub extra_sim1: Option<String>,
    pub extra_sim2: Option<String>,
    pub sim_info_list: Option<SimInfoList>,
}

impl Config {
    /// The slot mapping, when present, has unique keys.
    pub open spec fn wf(&self) -> bool {
        match self.sim_info_list {
            Some(l) => l.wf(),
            None => true,
        }
    }
}

/// Whether a JSON value is a well-formed configuration snapshot.
pub open spec fn json_is_config(j: Json) -> bool {
    match j {
        Json::Obj(pairs) => {
            &&& bool_field(pairs@, "enable_api_battery_query"@) is Some
            &&& bool_field(pairs@, "enable_api_call_query"@) is Some
            &&& bool_field(pairs@, "enable_api_clone"@) is Some
            &&& bool_field(pairs@, "enable_api_contact_query"@) is Some
            &&& bool_field(pairs@, "enable_api_sms_query"@) is Some
            &&& bool_field(pairs@, "enable_api_sms_send"@) is Some
            &&& bool_field(pairs@, "enable_api_wol"@) is Some
            &&& opt_string_field(pairs@, "extra_device_mark"@) is Some
            &&& opt_string_field(pairs@, "extra_sim1"@) is Some
            &&& opt_string_field(pairs@, "extra_sim2"@) is Some
            &&& match lookup(pairs@, "sim_info_list"@) {
                None => true,
                Some(Json::Null) => true,
                Some(v) => json_is_sim_list(v),
            }
        },
        _ => false,
    }
}

/// Whether `c` is exactly the configuration snapshot that `j` describes.
pub open spec fn config_matches_json(c: Config, j: Json) -> bool {
    match j {
        Json::Obj(pairs) => {
            &&& bool_field(pairs@, "enable_api_battery_query"@) == Some(
                c.enable_api_battery_query,
            )
            &&& bool_field(pairs@, "enable_api_call_query"@) == Some(c.enable_api_call_query)
            &&& bool_field(pairs@, "enable_api_clone"@) == Some(c.enable_api_clone)
            &&& bool_field(pairs@, "enable_api_contact_query"@) == Some(
                c.enable_api_contact_query,
            )
            &&& bool_field(pairs@, "enable_api_sms_query"@) == Some(c.enable_api_sms_query)
            &&& bool_field(pairs@, "enable_api_sms_send"@) == Some(c.enable_api_sms_send)
            &&& bool_field(pairs@, "enable_api_wol"@) == Some(c.enable_api_wol)
            &&& opt_string_field(pairs@, "extra_device_mark"@) == Some(c.extra_device_mark)
            &&& opt_string_field(pairs@, "extra_sim1"@) == Some(c.extra_sim1)
            &&& opt_string_field(pairs@, "extra_sim2"@) == Some(c.extra_sim2)
            &&& match lookup(pairs@, "sim_info_list"@) {
                None => c.sim_info_list is None,
                Some(Json::Null) => c.sim_info_list is None,
                Some(v) => c.sim_info_list matches Some(l) && l.wf() && (v matches Json::Obj(
                    entries,
                ) && sim_list_matches(l@, entries@)),
            }
        },
        _ => false,
    }
}

/// Reads a configuration snapshot out of a JSON value.
pub fn decode_config(j: &Json) -> (r: Option<Config>)
    ensures
        r is Some <==> json_is_config(*j),
        r matches Some(c) ==> config_matches_json(c, *j) && c.wf(),
{
    match j {
        Json::Obj(pairs) => {
            let enable_api_battery_query = match read_bool_field(
                pairs,
                "enable_api_battery_query",
            ) {
                Some(b) => b,
                None => {
                    return None;
                },
            };
            let enable_api_call_query = match read_bool_field(pairs, "enable_api_call_query") {
                Some(b) => b,
                None => {
                    return None;
                },
            };
            let enable_api_clone = match read_bool_field(pairs, "enable_api_clone") {
                Some(b) => b,
                None => {
                    return None;
                },
            };
            let enable_api_contact_query = match read_bool_field(
                pairs,
                "enable_api_contact_query",
            ) {
                Some(b) => b,
                None => {
                    return None;
                },
            };
            let enable_api_sms_query = match read_bool_field(pairs, "enable_api_sms_query") {
                Some(b) => b,
                None => {
                    return None;
                },
            };
            let enable_api_sms_send = match read_bool_field(pairs, "enable_api_sms_send") {
                Some(b) => b,
                None => {
                    return None;
                },
            };
            let enable_api_wol = match read_bool_field(pairs, "enable_api_wol") {
                Some(b) => b,
                None => {
                    return None;
                },
            };
            let extra_device_mark = match read_opt_string_field(pairs, "extra_device_mark") {
                Some(v) => v,
                None => {
                    return None;
                },
            };
            let extra_sim1 = match read_opt_string_field(pairs, "extra_sim1") {
                Some(v) => v,
                None => {
                    return None;
                },
            };
            let extra_sim2 = match read_opt_string_field(pairs, "extra_sim2") {
                Some(v) => v,
                None => {
                    return None;
                },
            };
            let sim_info_list = match crate::json::get_field(pairs, "sim_info_list") {
                None => None,
                Some(v) => match v {
                    Json::Null => None,
                    _ => match decode_sim_list(v) {
                        Some(l) => Some(l),
                        None => {
                            return None;
                        },
                    },
                },
            };
            Some(
                Config {
                    enable_api_battery_query,
                    enable_api_call_query,
                    enable_api_clone,
                    enable_api_contact_query,
                    enable_api_sms_query,
                    enable_api_sms_send,
                    enable_api_wol,
                    extra_device_mark,
                    extra_sim1,
                    extra_sim2,
                    sim_info_list,
                },
            )
        },
        _ => None,
    }
}

/// Copies an optional free-text value into its JSON form: absent becomes null.
fn json_of_opt_string(s: &Option<String>) -> (j: Json)
    ensures
        match *s {
            Some(v) => j == Json::Str(v),
            None => j == Json::Null,
        },
{
    match s {
        Some(v) => Json::Str(v.clone()),
        None => Json::Null,
    }
}

/// Writes a configuration snapshot as a JSON object that decodes back to it.
pub fn json_of_config(c: &Config) -> (j: Json)
    requires
        c.wf(),
    ensures
        json_is_config(j),
        config_matches_json(*c, j),
{
    let mut pairs: Vec<(String, Json)> = Vec::new();
    pairs.push(
        (String::from_str("enable_api_battery_query"), Json::Bool(c.enable_api_battery_query)),
    );
    pairs.push((String::from_str("enable_api_call_query"), Json::Bool(c.enable_api_call_query)));
    pairs.push((String::from_str("enable_api_clone"), Json::Bool(c.enable_api_clone)));
    pairs.push(
        (String::from_str("enable_api_contact_query"), Json::Bool(c.enable_api_contact_query)),
    );
    pairs.push((String::from_str("enable_api_sms_query"), Json::Bool(c.enable_api_sms_query)));
    pairs.push((String::from_str("enable_api_sms_send"), Json::Bool(c.enable_api_sms_send)));
    pairs.push((String::from_str("enable_api_wol"), Json::Bool(c.enable_api_wol)));
    pairs.push((String::from_str("extra_device_mark"), json_of_opt_string(&c.extra_device_mark)));
    pairs.push((String::from_str("extra_sim1"), json_of_opt_string(&c.extra_sim1)));
    pairs.push((String::from_str("extra_sim2"), json_of_opt_string(&c.extra_sim2)));
    let sim_json = match &c.sim_info_list {
        Some(l) => json_of_sim_list(l),
        None => Json::Null,
    };
    pairs.push((String::from_str("sim_info_list"), sim_json));
    let j = Json::Obj(pairs);
    proof {
        reveal_strlit("enable_api_battery_query");
        reveal_strlit("enable_api_call_query");
        reveal_strlit("enable_api_clone");
        reveal_strlit("enable_api_contact_query");
        reveal_strlit("enable_api_sms_query");
        reveal_strlit("enable_api_sms_send");
        reveal_strlit("enable_api_wol");
        reveal_strlit("extra_device_mark");
        reveal_strlit("extra_sim1");
        reveal_strlit("extra_sim2");
        reveal_strlit("sim_info_list");
        reveal_with_fuel(lookup, 13);
        assert(pairs@.len() == 11);
        assert("enable_api_battery_query"@.len() == 24);
        assert("enable_api_call_query"@.len() == 21);
        assert("enable_api_clone"@.len() == 16);
        assert("enable_api_contact_query"@.len() == 24);
        assert("enable_api_sms_query"@.len() == 20);
        assert("enable_api_sms_send"@.len() == 19);
        assert("enable_api_wol"@.len() == 14);
        assert("extra_device_mark"@.len() == 17);
        assert("extra_sim1"@.len() == 10);
        assert("extra_sim2"@.len() == 10);
        assert("sim_info_list"@.len() == 13);
        assert("enable_api_battery_query"@[11] == 'b' && "enable_api_contact_query"@[11] == 'c');
        assert("extra_sim1"@[9] == '1' && "extra_sim2"@[9] == '2');
        assert(lookup(pairs@, "enable_api_battery_query"@) == Some(pairs@[0].1));
        assert(lookup(pairs@, "enable_api_call_query"@) == Some(pairs@[1].1));
        assert(lookup(pairs@, "enable_api_clone"@) == Some(pairs@[2].1));
        assert(lookup(pairs@, "enable_api_contact_query"@) == Some(pairs@[3].1));
        assert(lookup(pairs@, "enable_api_sms_query"@) == Some(pairs@[4].1));
        assert(lookup(pairs@, "enable_api_sms_send"@) == Some(pairs@[5].1));
        assert(lookup(pairs@, "enable_api_wol"@) == Some(pairs@[6].1));
        assert(lookup(pairs@, "extra_device_mark"@) == Some(pairs@[7].1));
        assert(lookup(pairs@, "extra_sim1"@) == Some(pairs@[8].1));
        assert(lookup(pairs@, "extra_sim2"@) == Some(pairs@[9].1));
        assert(lookup(pairs@, "sim_info_list"@) == Some(pairs@[10].1));
        assert(json_is_config(j));
        assert(config_matches_json(*c, j));
    }
    j
}

/// A battery snapshot: the level as a formatted string (e.g. `"36%"`), three
/// optional readings, and the required status, health and plugged-state texts.
#[derive(Debug, Clone, PartialEq, Eq)]
pub struct Battery {
    pub level: String,
    pub scale: Option<String>,
    pub voltage: Option<String>,
    pub temperature: Option<String>,
    pub status: String,
    pub health: String,
    pub plugged: String,
}

/// Whether a JSON value is a well-formed battery snapshot.
pub open spec fn json_is_battery(j: Json) -> bool {
    match j {
        Json::Obj(pairs) => {
            &&& string_field(pairs@, "level"@) is Some
            &&& opt_string_field(pairs@, "scale"@) is Some
            &&& opt_string_field(pairs@, "voltage"@) is Some
            &&& opt_string_field(pairs@, "temperature"@) is Some
            &&& string_field(pairs@, "status"@) is Some
            &&& string_field(pairs@, "health"@) is Some
            &&& string_field(pairs@, "plugged"@) is Some
        },
        _ => false,
    }
}

/// Whether `b` is exactly the battery snapshot that `j` describes.
pub open spec fn battery_matches_json(b: Battery, j: Json) -> bool {
    match j {
        Json::Obj(pairs) => {
            &&& string_field(pairs@, "level"@) == Some(b.level)
            &&& opt_string_field(pairs@, "scale"@) == Some(b.scale)
            &&& opt_string_field(pairs@, "voltage"@) == Some(b.voltage)
            &&& opt_string_field(pairs@, "temperature"@) == Some(b.temperature)
            &&& string_field(pairs@, "status"@) == Some(b.status)
            &&& string_field(pairs@, "health"@) == Some(b.health)
            &&& string_field(pairs@, "plugged"@) == Some(b.plugged)
        },
        _ => false,
    }
}

/// Reads a battery snapshot out of a JSON value.
pub fn decode_battery(j: &Json) -> (r: Option<Battery>)
    ensures
        r is Some <==> json_is_battery(*j),
        r matches Some(b) ==> battery_matches_json(b, *j),
{
    match j {
        Json::Obj(pairs) => {
            let level = match read_string_field(pairs, "level") {
                Some(s) => s,
                None => {
                    return None;
                },
            };
            let scale = match read_opt_string_field(pairs, "scale") {
                Some(v) => v,
                None => {
                    return None;
                },
            };
            let voltage = match read_opt_string_field(pairs, "voltage") {
                Some(v) => v,
                None => {
                    return None;
                },
            };
            let temperature = match read_opt_string_field(pairs, "temperature") {
                Some(v) => v,
                None => {
                    return None;
                },
            };
            let status = match read_string_field(pairs, "status") {
                Some(s) => s,
                None => {
                    return None;
                },
            };
            let health = match read_string_field(pairs, "health") {
                Some(s) => s,
                None => {
                    return None;
                },
            };
            let plugged = match read_string_field(pairs, "plugged") {
                Some(s) => s,
                None => {
                    return None;
                },
            };
            Some(Battery { level, scale, voltage, temperature, status, health, plugged })
        },
        _ => None,
    }
}

/// Writes a battery snapshot as a JSON object that decodes back to it.
pub fn json_of_battery(b: &Battery) -> (j: Json)
    ensures
        json_is_battery(j),
        battery_matches_json(*b, j),
{
    let mut pairs: Vec<(String, Json)> = Vec::new();
    pairs.push((String::from_str("level"), Json::Str(b.level.clone())));
    pairs.push((String::from_str("scale"), json_of_opt_string(&b.scale)));
    pairs.push((String::from_str("voltage"), json_of_opt_string(&b.voltage)));
    pairs.push((String::from_str("temperature"), json_of_opt_string(&b.temperature)));
    pairs.push((String::from_str("status"), Json::Str(b.status.clone())));
    pairs.push((String::from_str("health"), Json::Str(b.health.clone())));
    pairs.push((String::from_str("plugged"), Json::Str(b.plugged.clone())));
    let j = Json::Obj(pairs);
    proof {
        reveal_strlit("level");
        reveal_strlit("scale");
        reveal_strlit("voltage");
        reveal_strlit("temperature");
        reveal_strlit("status");
        reveal_strlit("health");
        reveal_strlit("plugged");
        reveal_with_fuel(lookup, 9);
        assert(pairs@.len() == 7);
        assert("level"@.len() == 5);
        assert("scale"@.len() == 5);
        assert("voltage"@.len() == 7);
        assert("temperature"@.len() == 11);
        assert("status"@.len() == 6);
        assert("health"@.len() == 6);
        assert("plugged"@.len() == 7);
        assert("level"@[0] == 'l' && "scale"@[0] == 's');
        assert("status"@[0] == 's' && "health"@[0] == 'h');
        assert("voltage"@[0] == 'v' && "plugged"@[0] == 'p');
        assert(lookup(pairs@, "level"@) == Some(pairs@[0].1));
        assert(lookup(pairs@, "scale"@) == Some(pairs@[1].1));
        assert(lookup(pairs@, "voltage"@) == Some(pairs@[2].1));
        assert(lookup(pairs@, "temperature"@) == Some(pairs@[3].1));
        assert(lookup(pairs@, "status"@) == Some(pairs@[4].1));
        assert(lookup(pairs@, "health"@) == Some(pairs@[5].1));
        assert(lookup(pairs@, "plugged"@) == Some(pairs@[6].1));
        assert(json_is_battery(j));
        assert(battery_matches_json(*b, j));
    }
    j
}

/// The standard response wrapper around every payload the service returns.
#[derive(Debug, Clone, PartialEq, Eq)]
pub struct ResponseWrapper<T> {
    pub code: i32,
    pub msg: Option<String>,
    pub data: Option<T>,
    pub timestamp: u64,
    pub sign: Option<String>,
}

/// Whether an object carries the four scalar envelope fields: a `code` within
/// `i32` range, an optional `msg`, a non-negative `timestamp`, and an optional
/// `sign`.
pub open spec fn json_has_envelope_fields(pairs: Seq<(String, Json)>) -> bool {
    &&& i32_field(pairs, "code"@) is Some
    &&& opt_string_field(pairs, "msg"@) is Some
    &&& u64_field(pairs, "timestamp"@) is Some
    &&& opt_string_field(pairs, "sign"@) is Some
}

/// Whether the scalar envelope fields of `env` are exactly what the object
/// describes.
pub open spec fn envelope_scalars_match<T>(
    env: ResponseWrapper<T>,
    pairs: Seq<(String, Json)>,
) -> bool {
    &&& i32_field(pairs, "code"@) == Some(env.code)
    &&& opt_string_field(pairs, "msg"@) == Some(env.msg)
    &&& u64_field(pairs, "timestamp"@) == Some(env.timestamp)
    &&& opt_string_field(pairs, "sign"@) == Some(env.sign)
}

/// The payload carried by the envelope: absent when the `data` field is
/// missing or null.
pub open spec fn data_of_json(pairs: Seq<(String, Json)>) -> Option<Json> {
    match lookup(pairs, "data"@) {
        None => None,
        Some(Json::Null) => None,
        Some(v) => Some(v),
    }
}

/// Reads the four scalar envelope fields.
fn read_envelope_scalars(pairs: &Vec<(String, Json)>) -> (r: Option<(i32, Option<String>, u64, Option<String>)>)
    ensures
        r is Some <==> json_has_envelope_fields(pairs@),
        r matches Some(t) ==> i32_field(pairs@, "code"@) == Some(t.0) && opt_string_field(
            pairs@,
            "msg"@,
        ) == Some(t.1) && u64_field(pairs@, "timestamp"@) == Some(t.2) && opt_string_field(
            pairs@,
            "sign"@,
        ) == Some(t.3),
{
    let code = match read_i32_field(pairs, "code") {
        Some(v) => v,
        None => {
            return None;
        },
    };
    let msg = match read_opt_string_field(pairs, "msg") {
        Some(v) => v,
        None => {
            return None;
        },
    };
    let timestamp = match read_u64_field(pairs, "timestamp") {
        Some(v) => v,
        None => {
            return None;
        },
    };
    let sign = match read_opt_string_field(pairs, "sign") {
        Some(v) => v,
        None => {
            return None;
        },
    };
    Some((code, msg, timestamp, sign))
}

/// Whether a JSON value is a well-formed envelope around a configuration
/// payload.
pub open spec fn json_is_config_envelope(j: Json) -> bool {
    match j {
        Json::Obj(pairs) => json_has_envelope_fields(pairs@) && match data_of_json(pairs@) {
            None => true,
            Some(d) => json_is_config(d),
        },
        _ => false,
    }
}

/// Whether `env` is exactly the configuration envelope that `j` describes.
pub open spec fn config_envelope_matches(env: ResponseWrapper<Config>, j: Json) -> bool {
    match j {
        Json::Obj(pairs) => envelope_scalars_match(env, pairs@) && match data_of_json(pairs@) {
            None => env.data is None,
            Some(d) => env.data matches Some(c) && config_matches_json(c, d) && c.wf(),
        },
        _ => false,
    }
}

/// Reads a configuration envelope out of a JSON value.
pub fn decode_config_envelope(j: &Json) -> (r: Option<ResponseWrapper<Config>>)
    ensures
        r is Some <==> json_is_config_envelope(*j),
        r matches Some(env) ==> config_envelope_matches(env, *j),
{
    match j {
        Json::Obj(pairs) => {
            let scalars = match read_envelope_scalars(pairs) {
                Some(t) => t,
                None => {
                    return None;
                },
            };
            let data = match crate::json::get_field(pairs, "data") {
                None => None,
                Some(v) => match v {
                    Json::Null => None,
                    _ => match decode_config(v) {
                        Some(c) => Some(c),
                        None => {
                            return None;
                        },
                    },
                },
            };
            Some(
                ResponseWrapper {
                    code: scalars.0,
                    msg: scalars.1,
                    data,
                    timestamp: scalars.2,
                    sign: scalars.3,
                },
            )
        },
        _ => None,
    }
}

/// Whether a JSON value is a well-formed envelope around a battery payload.
pub open spec fn json_is_battery_envelope(j: Json) -> bool {
    match j {
        Json::Obj(pairs) => json_has_envelope_fields(pairs@) && match data_of_json(pairs@) {
            None => true,
            Some(d) => json_is_battery(d),
        },
        _ => false,
    }
}

/// Whether `env` is exactly the battery envelope that `j` describes.
pub open spec fn battery_envelope_matches(env: ResponseWrapper<Battery>, j: Json) -> bool {
    match j {
        Json::Obj(pairs) => envelope_scalars_match(env, pairs@) && match data_of_json(pairs@) {
            None => env.data is None,
            Some(d) => env.data matches Some(b) && battery_matches_json(b, d),
        },
        _ => false,
    }
}

/// Reads a battery envelope out of a JSON value.
pub fn decode_battery_envelope(j: &Json) -> (r: Option<ResponseWrapper<Battery>>)
    ensures
        r is Some <==> json_is_battery_envelope(*j),
        r matches Some(env) ==> battery_envelope_matches(env, *j),
{
    match j {
        Json::Obj(pairs) => {
            let scalars = match read_envelope_scalars(pairs) {
                Some(t) => t,
                None => {
                    return None;
                },
            };
            let data = match crate::json::get_field(pairs, "data") {
                None => None,
                Some(v) => match v {
                    Json::Null => None,
                    _ => match decode_battery(v) {
                        Some(b) => Some(b),
                        None => {
                            return None;
                        },
                    },
                },
            };
            Some(
                ResponseWrapper {
                    code: scalars.0,
                    msg: scalars.1,
                    data,
                    timestamp: scalars.2,
                    sign: scalars.3,
                },
            )
        },
        _ => None,
    }
}

/// Whether a JSON value is a well-formed envelope around an arbitrary payload,
/// the untyped diagnostic shape.
pub open spec fn json_is_raw_envelope(j: Json) -> bool {
    match j {
        Json::Obj(pairs) => json_has_envelope_fields(pairs@),
        _ => false,
    }
}

/// Whether `env` is exactly the untyped envelope that `j` describes, the
/// payload kept as raw JSON.
pub open spec fn raw_envelope_matches(env: ResponseWrapper<Json>, j: Json) -> bool {
    match j {
        Json::Obj(pairs) => envelope_scalars_match(env, pairs@) && match data_of_json(pairs@) {
            None => env.data is None,
            Some(d) => env.data matches Some(x) && crate::json::json_eq(x, d),
        },
        _ => false,
    }
}

/// Reads an envelope out of a JSON value, keeping the payload untyped.
pub fn decode_raw_envelope(j: &Json) -> (r: Option<ResponseWrapper<Json>>)
    ensures
        r is Some <==> json_is_raw_envelope(*j),
        r matches Some(env) ==> raw_envelope_matches(env, *j),
{
    match j {
        Json::Obj(pairs) => {
            let scalars = match read_envelope_scalars(pairs) {
                Some(t) => t,
                None => {
                    return None;
                },
            };
            let data = match crate::json::get_field(pairs, "data") {
                None => None,
                Some(v) => match v {
                    Json::Null => None,
                    _ => Some(v.deep_clone()),
                },
            };
            Some(
                ResponseWrapper {
                    code: scalars.0,
                    msg: scalars.1,
                    data,
                    timestamp: scalars.2,
                    sign: scalars.3,
                },
            )
        },
        _ => None,
    }
}

/// Writes the scalar envelope fields and a prepared `data` value as the wire
/// object `{code, msg, data, timestamp, sign}`.
fn json_of_envelope_parts(
    code: i32,
    msg: &Option<String>,
    data: Json,
    timestamp: u64,
    sign: &Option<String>,
) -> (j: Json)
    ensures
        (j matches Json::Obj(pairs) && {
            &&& i32_field(pairs@, "code"@) == Some(code)
            &&& opt_string_field(pairs@, "msg"@) == Some(*msg)
            &&& lookup(pairs@, "data"@) == Some(data)
            &&& u64_field(pairs@, "timestamp"@) == Some(timestamp)
            &&& opt_string_field(pairs@, "sign"@) == Some(*sign)
        }),
{
    let mut pairs: Vec<(String, Json)> = Vec::new();
    pairs.push((String::from_str("code"), Json::Int(code as i64)));
    pairs.push((String::from_str("msg"), json_of_opt_string(msg)));
    pairs.push((String::from_str("data"), data));
    pairs.push((String::from_str("timestamp"), Json::UInt(timestamp)));
    pairs.push((String::from_str("sign"), json_of_opt_string(sign)));
    let j = Json::Obj(pairs);
    proof {
        reveal_strlit("code");
        reveal_strlit("msg");
        reveal_strlit("data");
        reveal_strlit("timestamp");
        reveal_strlit("sign");
        reveal_with_fuel(lookup, 7);
        assert(pairs@.len() == 5);
        assert("code"@.len() == 4);
        assert("msg"@.len() == 3);
        assert("data"@.len() == 4);
        assert("timestamp"@.len() == 9);
        assert("sign"@.len() == 4);
        assert("code"@[0] == 'c' && "data"@[0] == 'd' && "sign"@[0] == 's');
        assert(lookup(pairs@, "code"@) == Some(pairs@[0].1));
        assert(lookup(pairs@, "msg"@) == Some(pairs@[1].1));
        assert(lookup(pairs@, "data"@) == Some(pairs@[2].1));
        assert(lookup(pairs@, "timestamp"@) == Some(pairs@[3].1));
        assert(lookup(pairs@, "sign"@) == Some(pairs@[4].1));
    }
    j
}

/// Writes an envelope of the untyped diagnostic shape as the wire object;
/// a null `data` reads back as an absent payload.
pub fn json_of_envelope_untyped(
    code: i32,
    msg: &Option<String>,
    data: Json,
    timestamp: u64,
    sign: &Option<String>,
) -> (j: Json)
    ensures
        json_is_raw_envelope(j),
        (j matches Json::Obj(pairs) && {
            &&& i32_field(pairs@, "code"@) == Some(code)
            &&& opt_string_field(pairs@, "msg"@) == Some(*msg)
            &&& lookup(pairs@, "data"@) == Some(data)
            &&& u64_field(pairs@, "timestamp"@) == Some(timestamp)
            &&& opt_string_field(pairs@, "sign"@) == Some(*sign)
        }),
{
    json_of_envelope_parts(code, msg, data, timestamp, sign)
}

/// Writes a configuration envelope as a JSON object that decodes back to it.
pub fn json_of_config_envelope(env: &ResponseWrapper<Config>) -> (j: Json)
    requires
        env.data matches Some(c) ==> c.wf(),
    ensures
        json_is_config_envelope(j),
        config_envelope_matches(*env, j),
{
    let data = match &env.data {
        Some(c) => json_of_config(c),
        None => Json::Null,
    };
    let ghost data_snapshot = data;
    let j = json_of_envelope_parts(env.code, &env.msg, data, env.timestamp, &env.sign);
    proof {
        if env.data is Some {
            assert(!(data_snapshot is Null));
        }
    }
    j
}

/// Writes a battery envelope as a JSON object that decodes back to it.
pub fn json_of_battery_envelope(env: &ResponseWrapper<Battery>) -> (j: Json)
    ensures
        json_is_battery_envelope(j),
        battery_envelope_matches(*env, j),
{
    let data = match &env.data {
        Some(b) => json_of_battery(b),
        None => Json::Null,
    };
    let ghost data_snapshot = data;
    let j = json_of_envelope_parts(env.code, &env.msg, data, env.timestamp, &env.sign);
    proof {
        if env.data is Some {
            assert(!(data_snapshot is Null));
        }
    }
    j
}

/// Field-for-field equality of configuration snapshots, the slot mappings
/// compared as sequences of bindings.
pub open spec fn config_like(c1: Config, c2: Config) -> bool {
    &&& c1.enable_api_battery_query == c2.enable_api_battery_query
    &&& c1.enable_api_call_query == c2.enable_api_call_query
    &&& c1.enable_api_clone == c2.enable_api_clone
    &&& c1.enable_api_contact_query == c2.enable_api_contact_query
    &&& c1.enable_api_sms_query == c2.enable_api_sms_query
    &&& c1.enable_api_sms_send == c2.enable_api_sms_send
    &&& c1.enable_api_wol == c2.enable_api_wol
    &&& c1.extra_device_mark == c2.extra_device_mark
    &&& c1.extra_sim1 == c2.extra_sim1
    &&& c1.extra_sim2 == c2.extra_sim2
    &&& match (c1.sim_info_list, c2.sim_info_list) {
        (Some(l1), Some(l2)) => l1@ == l2@,
        (None, None) => true,
        _ => false,
    }
}

/// Decoding a configuration snapshot is unambiguous: two snapshots described
/// by the same JSON value agree field for field. With the encoder's guarantee
/// that its output describes the encoded snapshot, this is the round trip:
/// encoding and decoding back yields the original, field for field.
pub proof fn lemma_config_match_unique(c1: Config, c2: Config, j: Json)
    requires
        config_matches_json(c1, j),
        config_matches_json(c2, j),
    ensures
        config_like(c1, c2),
{
    if let Json::Obj(pairs) = j {
        match lookup(pairs@, "sim_info_list"@) {
            Some(v) => {
                if !(v is Null) {
                    let (l1, l2) = (c1.sim_info_list->Some_0, c2.sim_info_list->Some_0);
                    if let Json::Obj(entries) = v {
                        assert forall|k: int| 0 <= k < l1@.len() implies (#[trigger] l1@[k])
                            == l2@[k] by {
                            assert(l1@[k].0 == entries@[k].0);
                            assert(l2@[k].0 == entries@[k].0);
                            assert(sim_info_of_json(entries@[k].1) == Some(l1@[k].1));
                            assert(sim_info_of_json(entries@[k].1) == Some(l2@[k].1));
                        }
                        assert(l1@ =~= l2@);
                    }
                }
            },
            None => {},
        }
    }
}

/// Decoding a battery snapshot is unambiguous: two snapshots described by the
/// same JSON value are equal. With the encoder's guarantee, this is the round
/// trip for battery payloads.
pub proof fn lemma_battery_match_unique(b1: Battery, b2: Battery, j: Json)
    requires
        battery_matches_json(b1, j),
        battery_matches_json(b2, j),
    ensures
        b1 == b2,
{
}

/// Decoding a configuration envelope is unambiguous: two envelopes described
/// by the same JSON value agree on every field.
pub proof fn lemma_config_envelope_unique(
    e1: ResponseWrapper<Config>,
    e2: ResponseWrapper<Config>,
    j: Json,
)
    requires
        config_envelope_matches(e1, j),
        config_envelope_matches(e2, j),
    ensures
        e1.code == e2.code,
        e1.msg == e2.msg,
        e1.timestamp == e2.timestamp,
        e1.sign == e2.sign,
        match (e1.data, e2.data) {
            (Some(c1), Some(c2)) => config_like(c1, c2),
            (None, None) => true,
            _ => false,
        },
{
    if let Json::Obj(pairs) = j {
        match data_of_json(pairs@) {
            Some(d) => {
                lemma_config_match_unique(e1.data->Some_0, e2.data->Some_0, d);
            },
            None => {},
        }
    }
}

/// Decoding a battery envelope is unambiguous: two envelopes described by the
/// same JSON value are equal.
pub proof fn lemma_battery_envelope_unique(
    e1: ResponseWrapper<Battery>,
    e2: ResponseWrapper<Battery>,
    j: Json,
)
    requires
        battery_envelope_matches(e1, j),
        battery_envelope_matches(e2, j),
    ensures
        e1 == e2,
{
    if let Json::Obj(pairs) = j {
        match data_of_json(pairs@) {
            Some(d) => {
                lemma_battery_match_unique(e1.data->Some_0, e2.data->Some_0, d);
            },
            None => {},
        }
    }
}

} // verus!

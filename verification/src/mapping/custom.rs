//! Custom protocol mapping: handlers turn controller input into named payloads,
//! which accumulate on top of the protocol's parameters and are sent together.

use vstd::prelude::*;
use vstd::string::*;

use crate::controller::event_collector::BUTTON_COUNT;
use super::error::MappingError;
use super::strategy::{MappingContext, MappingType};
use super::MappedEvent;

verus! {

/// Named payloads as plain values: (name, bytes) in order.
pub open spec fn payloads_view(s: Seq<(String, Vec<u8>)>) -> Seq<(Seq<char>, Seq<u8>)> {
    s.map_values(|p: (String, Vec<u8>)| (p.0@, p.1@))
}

/// No name occurs twice.
pub open spec fn names_distinct(s: Seq<(Seq<char>, Seq<u8>)>) -> bool {
    forall|i: int, j: int| 0 <= i < j < s.len() ==> (#[trigger] s[i]).0 != (#[trigger] s[j]).0
}

/// Position of the payload with a name, if there is one.
pub open spec fn payload_position(s: Seq<(Seq<char>, Seq<u8>)>, name: Seq<char>) -> Option<int> {
    if exists|i: int| 0 <= i < s.len() && (#[trigger] s[i]).0 == name {
        Some(choose|i: int| 0 <= i < s.len() && (#[trigger] s[i]).0 == name)
    } else {
        None
    }
}

/// The payloads after storing `bytes` under `name`: a payload of that name is
/// replaced in place, otherwise the new one goes last.
pub open spec fn payloads_insert(s: Seq<(Seq<char>, Seq<u8>)>, name: Seq<char>, bytes: Seq<u8>) -> Seq<(Seq<char>, Seq<u8>)> {
    match payload_position(s, name) {
        Some(i) => s.update(i, (name, bytes)),
        None => s.push((name, bytes)),
    }
}

/// The payloads after storing each of `data`, in order.
pub open spec fn payloads_merge(s: Seq<(Seq<char>, Seq<u8>)>, data: Seq<(Seq<char>, Seq<u8>)>) -> Seq<(Seq<char>, Seq<u8>)>
    decreases data.len(),
{
    if data.len() == 0 {
        s
    } else {
        let before = payloads_merge(s, data.drop_last());
        payloads_insert(before, data.last().0, data.last().1)
    }
}

/// The bytes stored under a name, if any.
pub open spec fn payload_lookup(s: Seq<(Seq<char>, Seq<u8>)>, name: Seq<char>) -> Option<Seq<u8>> {
    match payload_position(s, name) {
        Some(i) => Some(s[i].1),
        None => None,
    }
}

/// A copy of a byte vector.
fn copy_bytes(v: &Vec<u8>) -> (r: Vec<u8>)
    ensures
        r@ == v@,
{
    let mut r: Vec<u8> = Vec::new();
    for i in 0..v.len()
        invariant
            r@ == v@.take(i as int),
    {
        r.push(v[i]);
        assert(r@ =~= v@.take(i + 1));
    }
    assert(v@.take(v@.len() as int) =~= v@);
    r
}

/// A copy of named payloads.
pub fn copy_payloads(v: &Vec<(String, Vec<u8>)>) -> (r: Vec<(String, Vec<u8>)>)
    ensures
        payloads_view(r@) == payloads_view(v@),
{
    let mut r: Vec<(String, Vec<u8>)> = Vec::new();
    for i in 0..v.len()
        invariant
            i <= v@.len(),
            payloads_view(r@) == payloads_view(v@.take(i as int)),
    {
        let name = v[i].0.clone();
        let bytes = copy_bytes(&v[i].1);
        let ghost before = r@;
        r.push((name, bytes));
        proof {
            assert(r@ == before.push((name, bytes)));
            assert(payloads_view(r@) =~= payloads_view(before).push((name@, bytes@)));
            assert(v@.take(i + 1) =~= v@.take(i as int).push(v@[i as int]));
            assert(payloads_view(v@.take(i + 1)) =~= payloads_view(v@.take(i as int)).push((v@[i as int].0@, v@[i as int].1@)));
        }
    }
    assert(v@.take(v@.len() as int) =~= v@);
    r
}

/// Stores `bytes` under `name`: a payload of that name is replaced in place,
/// otherwise the new one goes last. Names stay distinct.
pub fn insert_payload(v: &mut Vec<(String, Vec<u8>)>, name: String, bytes: Vec<u8>)
    requires
        names_distinct(payloads_view(old(v)@)),
    ensures
        payloads_view(final(v)@) == payloads_insert(payloads_view(old(v)@), name@, bytes@),
        names_distinct(payloads_view(final(v)@)),
{
    let ghost s = payloads_view(v@);
    let mut i: usize = 0;
    while i < v.len()
        invariant
            s == payloads_view(v@),
            v@ == old(v)@,
            names_distinct(s),
            i <= v@.len(),
            forall|k: int| 0 <= k < i ==> (#[trigger] s[k]).0 != name@,
        decreases v@.len() - i,
    {
        if v[i].0 == name {
            proof {
                assert(s[i as int].0 == name@);
                let p = choose|k: int| 0 <= k < s.len() && (#[trigger] s[k]).0 == name@;
                assert(s[p].0 == name@);
                if p != i {
                    if p < i {
                        assert(s[p].0 != s[i as int].0);
                    } else {
                        assert(s[i as int].0 != s[p].0);
                    }
                }
                assert(payload_position(s, name@) == Some(i as int));
            }
            v.set(i, (name, bytes));
            proof {
                let t = payloads_view(v@);
                assert(t =~= s.update(i as int, (name@, bytes@)));
                assert forall|a: int, b: int| 0 <= a < b < t.len() implies (#[trigger] t[a]).0 != (#[trigger] t[b]).0 by {
                    assert(t[a].0 == s[a].0 && t[b].0 == s[b].0);
                }
            }
            return;
        }
        i = i + 1;
    }
    assert(payload_position(s, name@) is None);
    v.push((name, bytes));
    proof {
        let t = payloads_view(v@);
        assert(t =~= s.push((name@, bytes@)));
        assert forall|a: int, b: int| 0 <= a < b < t.len() implies (#[trigger] t[a]).0 != (#[trigger] t[b]).0 by {
            if b == s.len() {
                assert(t[a] == s[a]);
            } else {
                assert(t[a] == s[a] && t[b] == s[b]);
            }
        }
    }
}

/// After storing bytes under a name, the name gives back those bytes, and every
/// other name gives back what it gave before.
pub proof fn law_payload_read_after_write(s: Seq<(Seq<char>, Seq<u8>)>, name: Seq<char>, bytes: Seq<u8>, other: Seq<char>)
    requires
        names_distinct(s),
        other != name,
    ensures
        payload_lookup(payloads_insert(s, name, bytes), name) == Some(bytes),
        payload_lookup(payloads_insert(s, name, bytes), other) == payload_lookup(s, other),
{
    let t = payloads_insert(s, name, bytes);
    match payload_position(s, name) {
        Some(i) => {
            assert(t == s.update(i, (name, bytes)));
            assert(t[i].0 == name);
            let p = choose|k: int| 0 <= k < t.len() && (#[trigger] t[k]).0 == name;
            assert(t[p].0 == name);
            if p != i {
                assert(s[p].0 == name && s[i].0 == name);
                if p < i { assert(s[p].0 != s[i].0); } else { assert(s[i].0 != s[p].0); }
            }
            if exists|k: int| 0 <= k < s.len() && (#[trigger] s[k]).0 == other {
                let q = choose|k: int| 0 <= k < s.len() && (#[trigger] s[k]).0 == other;
                assert(q != i);
                assert(t[q] == s[q]);
                let q2 = choose|k: int| 0 <= k < t.len() && (#[trigger] t[k]).0 == other;
                assert(q2 != i);
                assert(t[q2] == s[q2]);
                if q2 != q {
                    if q2 < q { assert(s[q2].0 != s[q].0); } else { assert(s[q].0 != s[q2].0); }
                }
            } else {
                assert forall|k: int| 0 <= k < t.len() implies (#[trigger] t[k]).0 != other by {
                    if k != i { assert(t[k] == s[k]); }
                }
            }
        },
        None => {
            assert(t == s.push((name, bytes)));
            assert(t[s.len() as int].0 == name);
            let p = choose|k: int| 0 <= k < t.len() && (#[trigger] t[k]).0 == name;
            if p < s.len() {
                assert(t[p] == s[p]);
            }
            if exists|k: int| 0 <= k < s.len() && (#[trigger] s[k]).0 == other {
                let q = choose|k: int| 0 <= k < s.len() && (#[trigger] s[k]).0 == other;
                assert(t[q] == s[q]);
                let q2 = choose|k: int| 0 <= k < t.len() && (#[trigger] t[k]).0 == other;
                assert(q2 < s.len());
                assert(t[q2] == s[q2]);
                if q2 != q {
                    if q2 < q { assert(s[q2].0 != s[q].0); } else { assert(s[q].0 != s[q2].0); }
                }
            } else {
                assert forall|k: int| 0 <= k < t.len() implies (#[trigger] t[k]).0 != other by {
                    if k < s.len() { assert(t[k] == s[k]); }
                }
            }
        },
    }
}

/// Protocol of a custom mapping: its name, its version and its parameters, which
/// are the payloads every output starts from.
pub struct ProtocolConfig {
    pub protocol_name: String,
    pub protocol_version: String,
    pub parameters: Vec<(String, Vec<u8>)>,
}

impl ProtocolConfig {
    /// No parameter name occurs twice.
    pub open spec fn wf(&self) -> bool {
        names_distinct(payloads_view(self.parameters@))
    }

    /// A copy of this protocol configuration.
    pub fn duplicate(&self) -> (c: ProtocolConfig)
        ensures
            c.protocol_name@ == self.protocol_name@,
            c.protocol_version@ == self.protocol_version@,
            payloads_view(c.parameters@) == payloads_view(self.parameters@),
    {
        ProtocolConfig {
            protocol_name: self.protocol_name.clone(),
            protocol_version: self.protocol_version.clone(),
            parameters: copy_payloads(&self.parameters),
        }
    }
}

/// Configuration of a custom mapping: which sticks, triggers and buttons have a
/// handler (by position), the protocol, and a name.
pub struct CustomConfig {
    pub joystick_handlers: Vec<bool>,
    pub trigger_handlers: Vec<bool>,
    pub button_handlers: Vec<bool>,
    pub protocol_config: ProtocolConfig,
    pub name: String,
}

/// Whether no entry of a table is set.
pub open spec fn none_set(s: Seq<bool>) -> bool {
    forall|k: int| 0 <= k < s.len() ==> !(#[trigger] s[k])
}

/// Whether no entry of a table is set.
fn table_is_empty(v: &Vec<bool>) -> (b: bool)
    ensures
        b == none_set(v@),
{
    for i in 0..v.len()
        invariant
            forall|k: int| 0 <= k < i ==> !(#[trigger] v@[k]),
    {
        if v[i] {
            return false;
        }
    }
    true
}

impl CustomConfig {
    /// Tables have one slot per stick, trigger and button; parameter names are distinct.
    pub open spec fn wf(&self) -> bool {
        &&& self.joystick_handlers@.len() == 2
        &&& self.trigger_handlers@.len() == 2
        &&& self.button_handlers@.len() == BUTTON_COUNT
        &&& self.protocol_config.wf()
    }

    /// No input has a handler.
    pub open spec fn has_no_handlers(&self) -> bool {
        none_set(self.joystick_handlers@) && none_set(self.trigger_handlers@) && none_set(self.button_handlers@)
    }

    /// A configuration from its parts.
    pub fn new(
        joystick_handlers: Vec<bool>,
        trigger_handlers: Vec<bool>,
        button_handlers: Vec<bool>,
        protocol_config: ProtocolConfig,
        name: String,
    ) -> (c: CustomConfig)
        ensures
            c.joystick_handlers == joystick_handlers,
            c.trigger_handlers == trigger_handlers,
            c.button_handlers == button_handlers,
            c.protocol_config == protocol_config,
            c.name == name,
    {
        CustomConfig { joystick_handlers, trigger_handlers, button_handlers, protocol_config, name }
    }

    /// The demonstration configuration: handlers on both sticks, both triggers and
    /// the buttons A, B, X and Y; protocol "Demo Protocol" version "1.0" whose one
    /// parameter "device_id" holds the bytes 1, 2, 3, 4.
    pub fn demo_config() -> (c: CustomConfig)
        ensures
            c.wf(),
            c.joystick_handlers@ == seq![true, true],
            c.trigger_handlers@ == seq![true, true],
            forall|k: int| 0 <= k < BUTTON_COUNT ==> (#[trigger] c.button_handlers@[k]) == (k < 4),
            c.protocol_config.protocol_name@ == "Demo Protocol"@,
            c.protocol_config.protocol_version@ == "1.0"@,
            payloads_view(c.protocol_config.parameters@) == seq![("device_id"@, seq![1u8, 2u8, 3u8, 4u8])],
            c.name@ == "Demo Custom Mapping"@,
    {
        let mut buttons: Vec<bool> = Vec::new();
        for k in 0..BUTTON_COUNT
            invariant
                buttons@.len() == k,
                forall|m: int| 0 <= m < k ==> (#[trigger] buttons@[m]) == (m < 4),
        {
            buttons.push(k < 4);
        }
        let parameters = vec![(String::from_str("device_id"), vec![1u8, 2u8, 3u8, 4u8])];
        let protocol_config = ProtocolConfig {
            protocol_name: String::from_str("Demo Protocol"),
            protocol_version: String::from_str("1.0"),
            parameters,
        };
        let c = CustomConfig::new(vec![true, true], vec![true, true], buttons, protocol_config, String::from_str("Demo Custom Mapping"));
        assert(payloads_view(c.protocol_config.parameters@) =~= seq![("device_id"@, seq![1u8, 2u8, 3u8, 4u8])]);
        assert(c.joystick_handlers@ =~= seq![true, true]);
        assert(c.trigger_handlers@ =~= seq![true, true]);
        c
    }

    /// Checks the configuration: at least one input must have a handler.
    pub fn validate(&self) -> (r: Result<(), MappingError>)
        ensures
            r is Ok <==> !self.has_no_handlers(),
            r is Err ==> (r matches Err(MappingError::ConfigError(m))
                && m@ == "Custom configuration must define at least one handler"@),
    {
        if table_is_empty(&self.joystick_handlers) && table_is_empty(&self.trigger_handlers)
            && table_is_empty(&self.button_handlers) {
            Err(MappingError::ConfigError(String::from_str("Custom configuration must define at least one handler")))
        } else {
            Ok(())
        }
    }

    /// The kind of mapping this configuration produces.
    pub fn get_type(&self) -> (t: MappingType)
        ensures
            t == MappingType::Custom,
    {
        MappingType::Custom
    }

    /// Human-readable name of this configuration.
    pub fn get_name(&self) -> (s: String)
        ensures
            s@ == self.name@,
    {
        self.name.clone()
    }

    /// Description for display: the protocol's name and version.
    pub fn get_description(&self) -> (s: String)
        ensures
            s@ == "Custom mapping for "@ + self.protocol_config.protocol_name@ + " protocol v"@
                + self.protocol_config.protocol_version@,
    {
        let mut s = String::from_str("Custom mapping for ");
        s.append(self.protocol_config.protocol_name.as_str());
        s.append(" protocol v");
        s.append(self.protocol_config.protocol_version.as_str());
        s
    }

    /// A copy of this configuration.
    pub fn duplicate(&self) -> (c: CustomConfig)
        ensures
            c.joystick_handlers@ == self.joystick_handlers@,
            c.trigger_handlers@ == self.trigger_handlers@,
            c.button_handlers@ == self.button_handlers@,
            c.protocol_config.protocol_name@ == self.protocol_config.protocol_name@,
            c.protocol_config.protocol_version@ == self.protocol_config.protocol_version@,
            payloads_view(c.protocol_config.parameters@) == payloads_view(self.protocol_config.parameters@),
            c.name@ == self.name@,
    {
        CustomConfig {
            joystick_handlers: copy_flags(&self.joystick_handlers),
            trigger_handlers: copy_flags(&self.trigger_handlers),
            button_handlers: copy_flags(&self.button_handlers),
            protocol_config: self.protocol_config.duplicate(),
            name: self.name.clone(),
        }
    }

    /// A custom strategy running this configuration.
    pub fn create_strategy(&self) -> (r: Result<CustomStrategy, MappingError>)
        requires
            self.wf(),
        ensures
            r matches Ok(s) && s.wf()
                && s.output_view() == payloads_view(self.protocol_config.parameters@),
    {
        Ok(CustomStrategy::new(self.duplicate()))
    }
}

/// A copy of a table of flags.
fn copy_flags(v: &Vec<bool>) -> (r: Vec<bool>)
    ensures
        r@ == v@,
{
    let mut r: Vec<bool> = Vec::new();
    for i in 0..v.len()
        invariant
            r@ == v@.take(i as int),
    {
        r.push(v[i]);
        assert(r@ =~= v@.take(i + 1));
    }
    assert(v@.take(v@.len() as int) =~= v@);
    r
}

/// Maps controller input onto custom protocol payloads: the handlers' payloads
/// accumulate on top of the protocol parameters.
pub struct CustomStrategy {
    config: CustomConfig,
    context: MappingContext,
    output_data: Vec<(String, Vec<u8>)>,
}

impl CustomStrategy {
    /// Payloads accumulated so far.
    pub closed spec fn output_view(&self) -> Seq<(Seq<char>, Seq<u8>)> {
        payloads_view(self.output_data@)
    }

    /// The protocol parameters of the running configuration.
    pub closed spec fn parameters_view(&self) -> Seq<(Seq<char>, Seq<u8>)> {
        payloads_view(self.config.protocol_config.parameters@)
    }

    /// Payload and parameter names are distinct.
    pub closed spec fn wf(&self) -> bool {
        &&& names_distinct(self.output_view())
        &&& names_distinct(self.parameters_view())
    }

    /// A strategy running `config`, starting from its protocol parameters.
    pub fn new(config: CustomConfig) -> (s: CustomStrategy)
        requires
            config.protocol_config.wf(),
        ensures
            s.wf(),
            s.output_view() == payloads_view(config.protocol_config.parameters@),
            s.parameters_view() == payloads_view(config.protocol_config.parameters@),
    {
        let output_data = copy_payloads(&config.protocol_config.parameters);
        CustomStrategy { config, context: MappingContext::default(), output_data }
    }

    /// Stores the payloads the handlers gave for one controller state, in order:
    /// each replaces the payload of the same name or is added last. The result
    /// holds every accumulated payload; `None` when there is none.
    pub fn map(&mut self, handler_outputs: &Vec<Vec<(String, Vec<u8>)>>) -> (r: Option<MappedEvent>)
        requires
            old(self).wf(),
        ensures
            final(self).wf(),
            final(self).parameters_view() == old(self).parameters_view(),
            final(self).output_view() == payloads_merge(old(self).output_view(), flatten_outputs(handler_outputs@)),
            final(self).output_view().len() == 0 ==> r is None,
            final(self).output_view().len() > 0 ==> (r matches Some(MappedEvent::CustomEvent { event_type })
                && payloads_view(event_type@) == final(self).output_view()),
    {
        let ghost start = self.output_view();
        assert(handler_outputs@.take(0) =~= Seq::<Vec<(String, Vec<u8>)>>::empty());
        for h in 0..handler_outputs.len()
            invariant
                self.wf(),
                self.parameters_view() == old(self).parameters_view(),
                start == old(self).output_view(),
                self.output_view() == payloads_merge(start, flatten_outputs(handler_outputs@.take(h as int))),
        {
            let data = &handler_outputs[h];
            let ghost mid = self.output_view();
            assert(data@.take(0) =~= Seq::<(String, Vec<u8>)>::empty());
            for k in 0..data.len()
                invariant
                    self.wf(),
                    self.parameters_view() == old(self).parameters_view(),
                    self.output_view() == payloads_merge(mid, payloads_view(data@.take(k as int))),
            {
                let name = data[k].0.clone();
                let bytes = copy_bytes(&data[k].1);
                let ghost before = self.output_view();
                insert_payload(&mut self.output_data, name, bytes);
                proof {
                    assert(payloads_view(data@.take(k + 1)) =~= payloads_view(data@.take(k as int)).push((data@[k as int].0@, data@[k as int].1@)));
                    lemma_merge_push(mid, payloads_view(data@.take(k as int)), (data@[k as int].0@, data@[k as int].1@));
                }
            }
            proof {
                assert(data@.take(data@.len() as int) =~= data@);
                assert(handler_outputs@.take(h + 1).drop_last() =~= handler_outputs@.take(h as int));
                assert(handler_outputs@.take(h + 1).last() == handler_outputs@[h as int]);
                assert(flatten_outputs(handler_outputs@.take(h + 1)) == flatten_outputs(handler_outputs@.take(h as int))
                    + payloads_view(handler_outputs@[h as int]@));
                assert(data@ == handler_outputs@[h as int]@);
                lemma_merge_concat(start, flatten_outputs(handler_outputs@.take(h as int)), payloads_view(handler_outputs@[h as int]@));
            }
        }
        assert(handler_outputs@.take(handler_outputs@.len() as int) =~= handler_outputs@);
        if self.output_data.len() == 0 {
            None
        } else {
            Some(MappedEvent::CustomEvent { event_type: copy_payloads(&self.output_data) })
        }
    }

    /// Starts the strategy: the payloads start again from the protocol parameters.
    pub fn initialize(&mut self) -> (r: Result<(), MappingError>)
        requires
            old(self).wf(),
        ensures
            r is Ok,
            final(self).wf(),
            final(self).output_view() == old(self).parameters_view(),
            final(self).parameters_view() == old(self).parameters_view(),
    {
        self.output_data = copy_payloads(&self.config.protocol_config.parameters);
        Ok(())
    }

    /// Ends the strategy; nothing is to release.
    pub fn shutdown(&mut self)
        ensures
            final(self).output_view() == old(self).output_view(),
            final(self).parameters_view() == old(self).parameters_view(),
    {
    }

    /// Minimum interval between mapped inputs: 10 ms.
    pub fn get_rate_limit(&self) -> (r: Option<u64>)
        ensures
            r == Some(10u64),
    {
        Some(10)
    }

    /// The kind of mapping this strategy produces.
    pub fn get_type(&self) -> (t: MappingType)
        ensures
            t == MappingType::Custom,
    {
        MappingType::Custom
    }
}

/// The payloads of several handler outputs, one after the other.
pub open spec fn flatten_outputs(outputs: Seq<Vec<(String, Vec<u8>)>>) -> Seq<(Seq<char>, Seq<u8>)>
    decreases outputs.len(),
{
    if outputs.len() == 0 {
        Seq::empty()
    } else {
        flatten_outputs(outputs.drop_last()) + payloads_view(outputs.last()@)
    }
}

/// Merging one more payload is storing it after the others.
proof fn lemma_merge_push(s: Seq<(Seq<char>, Seq<u8>)>, data: Seq<(Seq<char>, Seq<u8>)>, p: (Seq<char>, Seq<u8>))
    ensures
        payloads_merge(s, data.push(p)) == payloads_insert(payloads_merge(s, data), p.0, p.1),
{
    assert(data.push(p).drop_last() =~= data);
}

/// Merging two runs of payloads is merging the first, then the second.
proof fn lemma_merge_concat(s: Seq<(Seq<char>, Seq<u8>)>, a: Seq<(Seq<char>, Seq<u8>)>, b: Seq<(Seq<char>, Seq<u8>)>)
    ensures
        payloads_merge(s, a + b) == payloads_merge(payloads_merge(s, a), b),
    decreases b.len(),
{
    if b.len() == 0 {
        assert(a + b =~= a);
    } else {
        lemma_merge_concat(s, a, b.drop_last());
        assert((a + b).drop_last() =~= a + b.drop_last());
        assert((a + b).last() == b.last());
    }
}

} // verus!

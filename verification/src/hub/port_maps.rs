//! Port name → port ID maps, one per hub model.

use crate::protocol::consts::HubType;
use crate::text::str_eq;
use vstd::prelude::*;

verus! {

/// A map from port names (such as `"A"` or `"HUB_LED"`) to port IDs.
pub struct PortMap {
    entries: Vec<(String, u8)>,
}

impl PortMap {
    /// No name occurs twice.
    #[verifier::type_invariant]
    spec fn well_formed(&self) -> bool {
        forall|i: int, j: int|
            0 <= i < j < self.entries@.len() ==> (#[trigger] self.entries@[i]).0@
                != (#[trigger] self.entries@[j]).0@
    }

    /// The names and their port IDs.
    pub closed spec fn view(&self) -> Map<Seq<char>, u8> {
        Map::new(
            |name: Seq<char>| exists|i: int| 0 <= i < self.entries@.len() && self.entries@[i].0@ == name,
            |name: Seq<char>|
                self.entries@[choose|i: int| 0 <= i < self.entries@.len() && self.entries@[i].0@ == name].1,
        )
    }

    /// An empty map.
    pub fn new() -> (m: PortMap)
        ensures
            m.view() == Map::<Seq<char>, u8>::empty(),
    {
        let m = PortMap { entries: Vec::new() };
        assert(m.view() =~= Map::<Seq<char>, u8>::empty());
        m
    }

    /// The index of `name` among the entries, if present.
    fn find(&self, name: &str) -> (r: Option<usize>)
        ensures
            match r {
                Some(i) => i < self.entries@.len() && self.entries@[i as int].0@ == name@,
                None => forall|i: int| 0 <= i < self.entries@.len() ==> self.entries@[i].0@ != name@,
            },
    {
        let mut i: usize = 0;
        while i < self.entries.len()
            invariant
                i <= self.entries@.len(),
                forall|j: int| 0 <= j < i ==> self.entries@[j].0@ != name@,
            decreases self.entries@.len() - i,
        {
            if str_eq(self.entries[i].0.as_str(), name) {
                return Some(i);
            }
            i = i + 1;
        }
        None
    }

    /// Maps `name` to `port_id`, replacing an earlier ID for the same name.
    pub fn insert(&mut self, name: String, port_id: u8)
        ensures
            final(self).view() == old(self).view().insert(name@, port_id),
    {
        proof {
            use_type_invariant(&*self);
        }
        let ghost old_entries = self.entries@;
        let found = self.find(name.as_str());
        let mut entries: Vec<(String, u8)> = Vec::new();
        std::mem::swap(&mut entries, &mut self.entries);
        match found {
            Some(i) => {
                entries.set(i, (name, port_id));
                proof {
                    assert forall|k: int, l: int|
                        0 <= k < l < entries@.len() implies (#[trigger] entries@[k]).0@
                        != (#[trigger] entries@[l]).0@ by {
                        if k != i && l != i {
                            assert(old_entries[k].0@ != old_entries[l].0@);
                        } else if k == i {
                            assert(old_entries[i as int].0@ != old_entries[l].0@);
                        } else {
                            assert(old_entries[k].0@ != old_entries[i as int].0@);
                        }
                    }
                }
                self.entries = entries;
                proof {
                    assert(self.view() =~= old(self).view().insert(name@, port_id)) by {
                        assert forall|n: Seq<char>| #[trigger] self.view().contains_key(n)
                            == old(self).view().insert(name@, port_id).contains_key(n) by {
                            if self.view().contains_key(n) {
                                let k = choose|k: int| 0 <= k < self.entries@.len() && self.entries@[k].0@ == n;
                                if k != i {
                                    assert(old_entries[k].0@ == n);
                                }
                            }
                            if old(self).view().contains_key(n) {
                                let k = choose|k: int| 0 <= k < old_entries.len() && old_entries[k].0@ == n;
                                assert(self.entries@[k].0@ == n);
                            }
                        }
                        assert forall|n: Seq<char>| #[trigger] self.view().contains_key(n) implies self.view()[n]
                            == old(self).view().insert(name@, port_id)[n] by {
                            let k = choose|k: int| 0 <= k < self.entries@.len() && self.entries@[k].0@ == n;
                            if n != name@ {
                                assert(k != i);
                                assert(old_entries[k].0@ == n);
                                let k2 = choose|k2: int| 0 <= k2 < old_entries.len() && old_entries[k2].0@ == n;
                                assert(k2 == k);
                            } else {
                                assert(k == i);
                            }
                        }
                    }
                }
            },
            None => {
                entries.push((name, port_id));
                proof {
                    let last = entries@.len() - 1;
                    assert forall|k: int, l: int|
                        0 <= k < l < entries@.len() implies (#[trigger] entries@[k]).0@
                        != (#[trigger] entries@[l]).0@ by {
                        if l != last {
                            assert(old_entries[k].0@ != old_entries[l].0@);
                        } else {
                            assert(old_entries[k].0@ != name@);
                        }
                    }
                }
                self.entries = entries;
                proof {
                    let last = self.entries@.len() - 1;
                    assert(self.view() =~= old(self).view().insert(name@, port_id)) by {
                        assert forall|n: Seq<char>| #[trigger] self.view().contains_key(n)
                            == old(self).view().insert(name@, port_id).contains_key(n) by {
                            if self.view().contains_key(n) {
                                let k = choose|k: int| 0 <= k < self.entries@.len() && self.entries@[k].0@ == n;
                                if k != last {
                                    assert(old_entries[k].0@ == n);
                                }
                            }
                            if old(self).view().contains_key(n) {
                                let k = choose|k: int| 0 <= k < old_entries.len() && old_entries[k].0@ == n;
                                assert(self.entries@[k].0@ == n);
                            }
                            if n == name@ {
                                assert(self.entries@[last].0@ == n);
                            }
                        }
                        assert forall|n: Seq<char>| #[trigger] self.view().contains_key(n) implies self.view()[n]
                            == old(self).view().insert(name@, port_id)[n] by {
                            let k = choose|k: int| 0 <= k < self.entries@.len() && self.entries@[k].0@ == n;
                            if n != name@ {
                                assert(k != last);
                                let k2 = choose|k2: int| 0 <= k2 < old_entries.len() && old_entries[k2].0@ == n;
                                assert(self.entries@[k2].0@ == n);
                                assert(k2 == k);
                            } else {
                                assert(k == last);
                            }
                        }
                    }
                }
            },
        }
    }

    /// The port ID for `name`, if the map has it.
    pub fn get(&self, name: &str) -> (r: Option<u8>)
        ensures
            r == (if self.view().contains_key(name@) {
                Some(self.view()[name@])
            } else {
                None::<u8>
            }),
    {
        proof {
            use_type_invariant(self);
        }
        match self.find(name) {
            Some(i) => {
                proof {
                    let k = choose|k: int| 0 <= k < self.entries@.len() && self.entries@[k].0@ == name@;
                    assert(k == i);
                }
                Some(self.entries[i].1)
            },
            None => None,
        }
    }
}

/// The ports of the LEGO Powered UP Hub (2-port hub, set #88009).
pub open spec fn powered_up_hub_ports() -> Map<Seq<char>, u8> {
    Map::empty().insert("A"@, 0).insert("B"@, 1).insert("HUB_LED"@, 50).insert("CURRENT_SENSOR"@, 59).insert("VOLTAGE_SENSOR"@, 60)
}

/// Port map for the LEGO Powered UP Hub (2-port hub, set #88009).
///
/// | Port name | ID |
/// |-----------|----|
/// | A | 0 |
/// | B | 1 |
/// | HUB_LED | 50 |
/// | CURRENT_SENSOR | 59 |
/// | VOLTAGE_SENSOR | 60 |
pub fn powered_up_hub() -> (m: PortMap)
    ensures
        m.view() == powered_up_hub_ports(),
{
    let mut m = PortMap::new();
    m.insert(String::from_str("A"), 0);
    m.insert(String::from_str("B"), 1);
    m.insert(String::from_str("HUB_LED"), 50);
    m.insert(String::from_str("CURRENT_SENSOR"), 59);
    m.insert(String::from_str("VOLTAGE_SENSOR"), 60);
    m
}

/// The ports of the LEGO BOOST Move Hub (set #17101).
pub open spec fn move_hub_ports() -> Map<Seq<char>, u8> {
    Map::empty().insert("A"@, 0).insert("B"@, 1).insert("C"@, 2).insert("D"@, 3).insert("HUB_LED"@, 50).insert("TILT_SENSOR"@, 58).insert("CURRENT_SENSOR"@, 59).insert("VOLTAGE_SENSOR"@, 60)
}

/// Port map for the LEGO BOOST Move Hub (set #17101).
///
/// | Port name | ID |
/// |-----------|----|
/// | A | 0 |
/// | B | 1 |
/// | C | 2 |
/// | D | 3 |
/// | HUB_LED | 50 |
/// | TILT_SENSOR | 58 |
/// | CURRENT_SENSOR | 59 |
/// | VOLTAGE_SENSOR | 60 |
pub fn move_hub() -> (m: PortMap)
    ensures
        m.view() == move_hub_ports(),
{
    let mut m = PortMap::new();
    m.insert(String::from_str("A"), 0);
    m.insert(String::from_str("B"), 1);
    m.insert(String::from_str("C"), 2);
    m.insert(String::from_str("D"), 3);
    m.insert(String::from_str("HUB_LED"), 50);
    m.insert(String::from_str("TILT_SENSOR"), 58);
    m.insert(String::from_str("CURRENT_SENSOR"), 59);
    m.insert(String::from_str("VOLTAGE_SENSOR"), 60);
    m
}

/// The ports of the LEGO Technic Medium Hub (Control+, set #88012).
pub open spec fn technic_medium_hub_ports() -> Map<Seq<char>, u8> {
    Map::empty().insert("A"@, 0).insert("B"@, 1).insert("C"@, 2).insert("D"@, 3).insert("HUB_LED"@, 50).insert("CURRENT_SENSOR"@, 59).insert("VOLTAGE_SENSOR"@, 60).insert("ACCELEROMETER"@, 97).insert("GYRO_SENSOR"@, 98).insert("TILT_SENSOR"@, 99)
}

/// Port map for the LEGO Technic Medium Hub (Control+, set #88012).
///
/// | Port name | ID |
/// |-----------|----|
/// | A | 0 |
/// | B | 1 |
/// | C | 2 |
/// | D | 3 |
/// | HUB_LED | 50 |
/// | CURRENT_SENSOR | 59 |
/// | VOLTAGE_SENSOR | 60 |
/// | ACCELEROMETER | 97 |
/// | GYRO_SENSOR | 98 |
/// | TILT_SENSOR | 99 |
pub fn technic_medium_hub() -> (m: PortMap)
    ensures
        m.view() == technic_medium_hub_ports(),
{
    let mut m = PortMap::new();
    m.insert(String::from_str("A"), 0);
    m.insert(String::from_str("B"), 1);
    m.insert(String::from_str("C"), 2);
    m.insert(String::from_str("D"), 3);
    m.insert(String::from_str("HUB_LED"), 50);
    m.insert(String::from_str("CURRENT_SENSOR"), 59);
    m.insert(String::from_str("VOLTAGE_SENSOR"), 60);
    m.insert(String::from_str("ACCELEROMETER"), 97);
    m.insert(String::from_str("GYRO_SENSOR"), 98);
    m.insert(String::from_str("TILT_SENSOR"), 99);
    m
}

/// The ports of the LEGO Technic Small Hub (Spike Essential, set #45345).
pub open spec fn technic_small_hub_ports() -> Map<Seq<char>, u8> {
    Map::empty().insert("A"@, 0).insert("B"@, 1).insert("HUB_LED"@, 49).insert("CURRENT_SENSOR"@, 59).insert("VOLTAGE_SENSOR"@, 60).insert("ACCELEROMETER"@, 97).insert("GYRO_SENSOR"@, 98).insert("TILT_SENSOR"@, 99)
}

/// Port map for the LEGO Technic Small Hub (Spike Essential, set #45345).
///
/// | Port name | ID |
/// |-----------|----|
/// | A | 0 |
/// | B | 1 |
/// | HUB_LED | 49 |
/// | CURRENT_SENSOR | 59 |
/// | VOLTAGE_SENSOR | 60 |
/// | ACCELEROMETER | 97 |
/// | GYRO_SENSOR | 98 |
/// | TILT_SENSOR | 99 |
pub fn technic_small_hub() -> (m: PortMap)
    ensures
        m.view() == technic_small_hub_ports(),
{
    let mut m = PortMap::new();
    m.insert(String::from_str("A"), 0);
    m.insert(String::from_str("B"), 1);
    m.insert(String::from_str("HUB_LED"), 49);
    m.insert(String::from_str("CURRENT_SENSOR"), 59);
    m.insert(String::from_str("VOLTAGE_SENSOR"), 60);
    m.insert(String::from_str("ACCELEROMETER"), 97);
    m.insert(String::from_str("GYRO_SENSOR"), 98);
    m.insert(String::from_str("TILT_SENSOR"), 99);
    m
}

/// The ports of the LEGO Powered UP Remote Control (#88010).
pub open spec fn remote_control_ports() -> Map<Seq<char>, u8> {
    Map::empty().insert("LEFT"@, 0).insert("RIGHT"@, 1).insert("HUB_LED"@, 52).insert("VOLTAGE_SENSOR"@, 59).insert("REMOTE_CONTROL_RSSI"@, 60)
}

/// Port map for the LEGO Powered UP Remote Control (#88010).
///
/// | Port name | ID |
/// |-----------|----|
/// | LEFT | 0 |
/// | RIGHT | 1 |
/// | HUB_LED | 52 |
/// | VOLTAGE_SENSOR | 59 |
/// | REMOTE_CONTROL_RSSI | 60 |
pub fn remote_control() -> (m: PortMap)
    ensures
        m.view() == remote_control_ports(),
{
    let mut m = PortMap::new();
    m.insert(String::from_str("LEFT"), 0);
    m.insert(String::from_str("RIGHT"), 1);
    m.insert(String::from_str("HUB_LED"), 52);
    m.insert(String::from_str("VOLTAGE_SENSOR"), 59);
    m.insert(String::from_str("REMOTE_CONTROL_RSSI"), 60);
    m
}

/// The ports of the LEGO DUPLO Train Base (#10874).
pub open spec fn duplo_train_base_ports() -> Map<Seq<char>, u8> {
    Map::empty().insert("MOTOR"@, 0).insert("COLOR"@, 18).insert("SPEEDOMETER"@, 19)
}

/// Port map for the LEGO DUPLO Train Base (#10874).
///
/// | Port name | ID |
/// |-----------|----|
/// | MOTOR | 0 |
/// | COLOR | 18 |
/// | SPEEDOMETER | 19 |
pub fn duplo_train_base() -> (m: PortMap)
    ensures
        m.view() == duplo_train_base_ports(),
{
    let mut m = PortMap::new();
    m.insert(String::from_str("MOTOR"), 0);
    m.insert(String::from_str("COLOR"), 18);
    m.insert(String::from_str("SPEEDOMETER"), 19);
    m
}

/// The ports of the LEGO `WeDo 2.0` Smart Hub (#45300).
pub open spec fn wedo2_smart_hub_ports() -> Map<Seq<char>, u8> {
    Map::empty().insert("A"@, 1).insert("B"@, 2).insert("CURRENT_SENSOR"@, 3).insert("VOLTAGE_SENSOR"@, 4).insert("PIEZO_BUZZER"@, 5).insert("HUB_LED"@, 6)
}

/// Port map for the LEGO `WeDo 2.0` Smart Hub (#45300).
///
/// | Port name | ID |
/// |-----------|----|
/// | A | 1 |
/// | B | 2 |
/// | CURRENT_SENSOR | 3 |
/// | VOLTAGE_SENSOR | 4 |
/// | PIEZO_BUZZER | 5 |
/// | HUB_LED | 6 |
pub fn wedo2_smart_hub() -> (m: PortMap)
    ensures
        m.view() == wedo2_smart_hub_ports(),
{
    let mut m = PortMap::new();
    m.insert(String::from_str("A"), 1);
    m.insert(String::from_str("B"), 2);
    m.insert(String::from_str("CURRENT_SENSOR"), 3);
    m.insert(String::from_str("VOLTAGE_SENSOR"), 4);
    m.insert(String::from_str("PIEZO_BUZZER"), 5);
    m.insert(String::from_str("HUB_LED"), 6);
    m
}

/// The ports of a hub model; the Mario figures and unknown hubs have none.
pub open spec fn ports_for(hub_type: HubType) -> Map<Seq<char>, u8> {
    match hub_type {
        HubType::Hub => powered_up_hub_ports(),
        HubType::MoveHub => move_hub_ports(),
        HubType::TechnicMediumHub => technic_medium_hub_ports(),
        HubType::TechnicSmallHub => technic_small_hub_ports(),
        HubType::RemoteControl => remote_control_ports(),
        HubType::DuploTrainBase => duplo_train_base_ports(),
        HubType::WeDo2SmartHub => wedo2_smart_hub_ports(),
        _ => Map::empty(),
    }
}

/// The port map of a hub model; the Mario figures and unknown hubs get an empty map.
pub fn port_map_for(hub_type: HubType) -> (m: PortMap)
    ensures
        m.view() == ports_for(hub_type),
{
    match hub_type {
        HubType::Hub => powered_up_hub(),
        HubType::MoveHub => move_hub(),
        HubType::TechnicMediumHub => technic_medium_hub(),
        HubType::TechnicSmallHub => technic_small_hub(),
        HubType::RemoteControl => remote_control(),
        HubType::DuploTrainBase => duplo_train_base(),
        HubType::WeDo2SmartHub => wedo2_smart_hub(),
        _ => PortMap::new(),
    }
}

/// The name of the `i`-th lettered port: "A", "B", "C", ...
pub open spec fn port_letter(i: int) -> Seq<char> {
    seq![(65 + i) as char]
}

/// The lettered ports of a hub model: the ID of port A and how many lettered
/// ports it has.
pub open spec fn lettered_ports(hub_type: HubType) -> (u8, nat) {
    match hub_type {
        HubType::Hub => (0, 2),
        HubType::MoveHub => (0, 4),
        HubType::TechnicMediumHub => (0, 4),
        HubType::TechnicSmallHub => (0, 2),
        HubType::WeDo2SmartHub => (1, 2),
        _ => (0, 0),
    }
}

/// On every hub model the lettered ports take consecutive IDs from port A's:
/// A, B, C, D on the four-port hubs are 0, 1, 2, 3; no letter past the last
/// lettered port is mapped.
pub proof fn lemma_lettered_ports_are_consecutive(hub_type: HubType, i: int)
    requires
        0 <= i <= 3,
    ensures
        i < lettered_ports(hub_type).1 ==> ports_for(hub_type).contains_key(port_letter(i))
            && ports_for(hub_type)[port_letter(i)] == lettered_ports(hub_type).0 + i,
        i >= lettered_ports(hub_type).1 ==> !ports_for(hub_type).contains_key(port_letter(i)),
{
    reveal_strlit("A");
    reveal_strlit("B");
    reveal_strlit("C");
    reveal_strlit("D");
    reveal_strlit("HUB_LED");
    reveal_strlit("CURRENT_SENSOR");
    reveal_strlit("VOLTAGE_SENSOR");
    reveal_strlit("TILT_SENSOR");
    reveal_strlit("ACCELEROMETER");
    reveal_strlit("GYRO_SENSOR");
    reveal_strlit("LEFT");
    reveal_strlit("RIGHT");
    reveal_strlit("REMOTE_CONTROL_RSSI");
    reveal_strlit("MOTOR");
    reveal_strlit("COLOR");
    reveal_strlit("SPEEDOMETER");
    reveal_strlit("PIEZO_BUZZER");
    assert(port_letter(0) =~= "A"@);
    assert(port_letter(1) =~= "B"@);
    assert(port_letter(2) =~= "C"@);
    assert(port_letter(3) =~= "D"@);
    let k = port_letter(i);
    let names = seq![
        "A"@, "B"@, "C"@, "D"@, "HUB_LED"@, "CURRENT_SENSOR"@, "VOLTAGE_SENSOR"@, "TILT_SENSOR"@,
        "ACCELEROMETER"@, "GYRO_SENSOR"@, "LEFT"@, "RIGHT"@, "REMOTE_CONTROL_RSSI"@, "MOTOR"@, "COLOR"@,
        "SPEEDOMETER"@, "PIEZO_BUZZER"@,
    ];
    assert forall|j: int| 0 <= j < names.len() && j != i implies names[j] != k by {
        if names[j].len() == 1 {
            assert(names[j][0] != k[0]);
        } else {
            assert(names[j].len() != k.len());
        }
    }
    assert(names[i] == k);
    match hub_type {
        HubType::Hub => {},
        HubType::MoveHub => {},
        HubType::TechnicMediumHub => {},
        HubType::TechnicSmallHub => {},
        HubType::RemoteControl => {},
        HubType::DuploTrainBase => {},
        HubType::WeDo2SmartHub => {},
        _ => {},
    }
}

} // verus!

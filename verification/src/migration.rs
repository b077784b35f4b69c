//! Turning the old layout of the configuration into the present one, and
//! choosing between the two when a configuration is read.

use crate::decimal::decimal_string;
use crate::decimal::decimal_text;
use crate::decimal::wide_decimal_string;
use crate::device_manager::DeviceManager;
use crate::error::BridgeError;
use crate::error::BridgeErrorView;
use crate::models::device::ConnectionConfig;
use crate::models::device::ConnectionConfigView;
use crate::models::device::DeviceConfig;
use crate::models::device::DeviceConfigView;
use crate::models::host::AppConfig;
use crate::models::host::AppConfigView;
use crate::models::host::HostConfig;
use crate::models::host::HostConfigView;
use crate::models::legacy_device::LegacyAppConfig;
use crate::models::legacy_device::LegacyDeviceConfig;
use crate::models::legacy_device::LegacyDeviceConfigView;
use crate::models::miernik::MiernikConfig;
use crate::models::miernik::MiernikConfigView;
use crate::text_map::has_key;
use crate::text_map::lookup;
use crate::text_map::with_entry;
use crate::text_map::Record;
use crate::text_map::TextMap;
use crate::views::join;
use crate::views::join3;
use vstd::prelude::*;

verus! {

/// The key under which the link of a device is remembered: two devices
/// with the same key share one host.
pub open spec fn host_key(connection: ConnectionConfigView) -> Seq<char> {
    match connection {
        ConnectionConfigView::Tcp { host, port } => "tcp-"@ + host + "-"@ + decimal_text(
            port as nat,
        ),
        ConnectionConfigView::Serial { port, baud_rate, .. } => "serial-"@ + port + "-"@
            + decimal_text(baud_rate as nat),
    }
}

/// The name that a host gets from the link it stands for.
pub open spec fn host_name(connection: ConnectionConfigView) -> Seq<char> {
    match connection {
        ConnectionConfigView::Tcp { host, port } => "Host "@ + host + ":"@ + decimal_text(
            port as nat,
        ),
        ConnectionConfigView::Serial { port, baud_rate, .. } => "Serial "@ + port + " @ "@
            + decimal_text(baud_rate as nat) + " baud"@,
    }
}

/// The identity of the `n`-th host.
pub open spec fn host_id(n: nat) -> Seq<char> {
    "host-"@ + decimal_text(n)
}

/// The identity of the `n`-th indicator.
pub open spec fn miernik_id(n: nat) -> Seq<char> {
    "miernik-"@ + decimal_text(n)
}

/// Whether two tables of commands know the same names.
pub open spec fn same_names(a: Seq<(Seq<char>, Seq<char>)>, b: Seq<(Seq<char>, Seq<char>)>)
    -> bool {
    forall|key: Seq<char>| has_key(a, key) <==> has_key(b, key)
}

/// Whether an indicator stands for devices of the dialect `protocol` that
/// know the commands of `commands`.
pub open spec fn same_kind(
    miernik: MiernikConfigView,
    protocol: Seq<char>,
    commands: Seq<(Seq<char>, Seq<char>)>,
) -> bool {
    miernik.protocol == protocol && same_names(miernik.commands, commands)
}

/// The identity of the first indicator of the same kind, if there is one.
pub open spec fn matching_miernik(
    mierniki: Seq<(Seq<char>, MiernikConfigView)>,
    protocol: Seq<char>,
    commands: Seq<(Seq<char>, Seq<char>)>,
) -> Option<Seq<char>>
    decreases mierniki.len(),
{
    if mierniki.len() == 0 {
        None
    } else if same_kind(mierniki[0].1, protocol, commands) {
        Some(mierniki[0].0)
    } else {
        matching_miernik(mierniki.drop_first(), protocol, commands)
    }
}

/// What has become of the devices migrated so far: the hosts, the key of
/// each host, the indicators and the devices.
pub struct Migration {
    pub hosts: Seq<(Seq<char>, HostConfigView)>,
    pub host_keys: Seq<(Seq<char>, Seq<char>)>,
    pub mierniki: Seq<(Seq<char>, MiernikConfigView)>,
    pub devices: Seq<(Seq<char>, DeviceConfigView)>,
}

impl Migration {
    /// The configuration that the migration has made.
    pub open spec fn config(self) -> AppConfigView {
        AppConfigView { hosts: self.hosts, mierniki: self.mierniki, devices: self.devices }
    }

    /// The migration before any device.
    pub open spec fn start() -> Migration {
        Migration {
            hosts: Seq::empty(),
            host_keys: Seq::empty(),
            mierniki: Seq::empty(),
            devices: Seq::empty(),
        }
    }

    /// The host of a device with the link `connection`: the one that
    /// stands for the same link, or a new one with the next number.
    pub open spec fn host_for(self, connection: ConnectionConfigView) -> Seq<char> {
        match lookup(self.host_keys, host_key(connection)) {
            Some(id) => id,
            None => host_id(self.hosts.len() + 1),
        }
    }

    /// The indicator of a device: the first of the same kind, or a new one
    /// with the next number.
    pub open spec fn miernik_for(self, device: LegacyDeviceConfigView) -> Seq<char> {
        match matching_miernik(self.mierniki, device.protocol, device.commands) {
            Some(id) => id,
            None => miernik_id(self.mierniki.len() + 1),
        }
    }

    /// The migration after one more device. The device gets the host that
    /// stands for its link and the indicator of its kind; where there is
    /// none yet, it is made from the settings of the device, enabled.
    pub open spec fn step(self, device_id: Seq<char>, device: LegacyDeviceConfigView) -> Migration {
        let host = self.host_for(device.connection);
        let miernik = self.miernik_for(device);
        let new_host = lookup(self.host_keys, host_key(device.connection)) is None;
        let new_miernik = matching_miernik(self.mierniki, device.protocol, device.commands)
            is None;
        Migration {
            hosts: if new_host {
                with_entry(
                    self.hosts,
                    host,
                    HostConfigView {
                        name: host_name(device.connection),
                        connection: device.connection,
                        timeout_ms: device.timeout_ms,
                        enabled: true,
                    },
                )
            } else {
                self.hosts
            },
            host_keys: if new_host {
                with_entry(self.host_keys, host_key(device.connection), host)
            } else {
                self.host_keys
            },
            mierniki: if new_miernik {
                with_entry(
                    self.mierniki,
                    miernik,
                    MiernikConfigView {
                        name: device.manufacturer + " "@ + device.model,
                        protocol: device.protocol,
                        manufacturer: device.manufacturer,
                        model: device.model,
                        commands: device.commands,
                        enabled: true,
                    },
                )
            } else {
                self.mierniki
            },
            devices: with_entry(
                self.devices,
                device_id,
                DeviceConfigView {
                    name: device.name,
                    manufacturer: device.manufacturer,
                    model: device.model,
                    host_id: host,
                    miernik_id: miernik,
                    enabled: device.enabled,
                },
            ),
        }
    }
}

/// The migration of devices, one after the other in their order.
pub open spec fn migration(devices: Seq<(Seq<char>, LegacyDeviceConfigView)>) -> Migration
    decreases devices.len(),
{
    if devices.len() == 0 {
        Migration::start()
    } else {
        migration(devices.drop_last()).step(devices.last().0, devices.last().1)
    }
}

/// The configuration that the old layout turns into.
pub open spec fn migrated(devices: Seq<(Seq<char>, LegacyDeviceConfigView)>) -> AppConfigView {
    migration(devices).config()
}

/// Every device of the old layout is a device of the new one, with its
/// name, its make and whether it is enabled kept.
pub proof fn lemma_migration_keeps_devices(devices: Seq<(Seq<char>, LegacyDeviceConfigView)>)
    requires
        crate::text_map::distinct_keys(devices),
    ensures
        crate::text_map::distinct_keys(migrated(devices).devices),
        forall|i: int|
            0 <= i < devices.len() ==> (lookup(
                migrated(devices).devices,
                (#[trigger] devices[i]).0,
            ) matches Some(d) && d.name == devices[i].1.name && d.manufacturer
                == devices[i].1.manufacturer && d.model == devices[i].1.model && d.enabled
                == devices[i].1.enabled),
    decreases devices.len(),
{
    if devices.len() > 0 {
        let rest = devices.drop_last();
        assert forall|i: int, j: int| 0 <= i < j < rest.len() implies (#[trigger] rest[i]).0 != (
        #[trigger] rest[j]).0 by {
            assert(rest[i] == devices[i] && rest[j] == devices[j]);
        }
        lemma_migration_keeps_devices(rest);
        let before = migration(rest);
        let after = migration(devices);
        let (device_id, device) = devices.last();
        let made = lookup(after.devices, device_id);
        crate::text_map::lemma_with_entry(
            before.devices,
            device_id,
            DeviceConfigView {
                name: device.name,
                manufacturer: device.manufacturer,
                model: device.model,
                host_id: before.host_for(device.connection),
                miernik_id: before.miernik_for(device),
                enabled: device.enabled,
            },
        );
        assert forall|i: int| 0 <= i < devices.len() implies (lookup(
            after.devices,
            (#[trigger] devices[i]).0,
        ) matches Some(d) && d.name == devices[i].1.name && d.manufacturer
            == devices[i].1.manufacturer && d.model == devices[i].1.model && d.enabled
            == devices[i].1.enabled) by {
            if i < devices.len() - 1 {
                assert(devices[i] == rest[i]);
                assert(devices[i].0 != devices[devices.len() - 1].0);
                assert(lookup(after.devices, devices[i].0) == lookup(
                    before.devices,
                    rest[i].0,
                ));
            }
        }
    }
}

/// The key under which the link of a device is remembered.
pub fn host_key_of(connection: &ConnectionConfig) -> (key: String)
    ensures
        key@ == host_key(connection@),
{
    match connection {
        ConnectionConfig::Tcp { host, port } => {
            let mut key = join3("tcp-", host.as_str(), "-");
            key.append(decimal_string(*port as u64).as_str());
            key
        },
        ConnectionConfig::Serial { port, baud_rate, .. } => {
            let mut key = join3("serial-", port.as_str(), "-");
            key.append(decimal_string(*baud_rate as u64).as_str());
            key
        },
    }
}

/// The name that a host gets from the link it stands for.
pub fn host_name_of(connection: &ConnectionConfig) -> (name: String)
    ensures
        name@ == host_name(connection@),
{
    match connection {
        ConnectionConfig::Tcp { host, port } => {
            let mut name = join3("Host ", host.as_str(), ":");
            name.append(decimal_string(*port as u64).as_str());
            name
        },
        ConnectionConfig::Serial { port, baud_rate, .. } => {
            let mut name = join3("Serial ", port.as_str(), " @ ");
            name.append(decimal_string(*baud_rate as u64).as_str());
            name.append(" baud");
            name
        },
    }
}

/// Whether every name of `a` is a name of `b`.
fn names_within(a: &TextMap<String>, b: &TextMap<String>) -> (r: bool)
    ensures
        r == forall|i: int| 0 <= i < a@.len() ==> has_key(b@, (#[trigger] a@[i]).0),
{
    let mut i: usize = 0;
    while i < a.len()
        invariant
            i <= a@.len(),
            forall|k: int| 0 <= k < i ==> has_key(b@, (#[trigger] a@[k]).0),
        decreases a@.len() - i,
    {
        if !b.contains_key(a.key_at(i).as_str()) {
            return false;
        }
        i += 1;
    }
    true
}

/// Whether two tables of commands know the same names.
pub fn have_same_names(a: &TextMap<String>, b: &TextMap<String>) -> (r: bool)
    ensures
        r == same_names(a@, b@),
{
    let within = names_within(a, b) && names_within(b, a);
    proof {
        if within {
            assert forall|key: Seq<char>| has_key(a@, key) <==> has_key(b@, key) by {
                crate::text_map::lemma_position(a@, key);
                crate::text_map::lemma_position(b@, key);
                if has_key(a@, key) {
                    assert(a@[crate::text_map::position(a@, key)].0 == key);
                }
                if has_key(b@, key) {
                    assert(b@[crate::text_map::position(b@, key)].0 == key);
                }
            }
        } else {
            if !(forall|i: int| 0 <= i < a@.len() ==> has_key(b@, (#[trigger] a@[i]).0)) {
                let i = choose|i: int| 0 <= i < a@.len() && !has_key(b@, (#[trigger] a@[i]).0);
                crate::text_map::lemma_position(a@, a@[i].0);
                assert(has_key(a@, a@[i].0));
            } else {
                let i = choose|i: int| 0 <= i < b@.len() && !has_key(a@, (#[trigger] b@[i]).0);
                crate::text_map::lemma_position(b@, b@[i].0);
                assert(has_key(b@, b@[i].0));
            }
        }
    }
    within
}

/// The identity of the first indicator of the same kind, if there is one.
pub fn find_miernik(
    mierniki: &TextMap<MiernikConfig>,
    protocol: &str,
    commands: &TextMap<String>,
) -> (r: Option<String>)
    ensures
        crate::views::option_text(r) == matching_miernik(mierniki@, protocol@, commands@),
{
    let mut i: usize = 0;
    assert(mierniki@.skip(0) =~= mierniki@);
    while i < mierniki.len()
        invariant
            i <= mierniki@.len(),
            matching_miernik(mierniki@, protocol@, commands@) == matching_miernik(
                mierniki@.skip(i as int),
                protocol@,
                commands@,
            ),
        decreases mierniki@.len() - i,
    {
        let miernik = mierniki.value_at(i);
        proof {
            let rest = mierniki@.skip(i as int);
            assert(rest[0] == mierniki@[i as int]);
            assert(rest.drop_first() =~= mierniki@.skip(i as int + 1));
        }
        if crate::text::spells(miernik.protocol.as_str(), protocol) && have_same_names(
            &miernik.commands,
            commands,
        ) {
            return Some(mierniki.key_at(i).clone());
        }
        i += 1;
    }
    None
}

/// Hosts and indicators are numbered in the order in which they were made,
/// and beside every host stands the key of its link.
pub open spec fn numbered(m: Migration) -> bool {
    &&& m.host_keys.len() == m.hosts.len()
    &&& forall|i: int|
        0 <= i < m.hosts.len() ==> (#[trigger] m.hosts[i]).0 == host_id((i + 1) as nat)
    &&& forall|i: int|
        0 <= i < m.hosts.len() ==> (#[trigger] m.host_keys[i]) == (
            host_key(m.hosts[i].1.connection),
            m.hosts[i].0,
        )
    &&& crate::text_map::distinct_keys(m.host_keys)
    &&& forall|i: int|
        0 <= i < m.mierniki.len() ==> (#[trigger] m.mierniki[i]).0 == miernik_id((i + 1) as nat)
}

/// Different numbers give different identities.
pub proof fn lemma_ids_differ(a: nat, b: nat)
    requires
        a != b,
    ensures
        host_id(a) != host_id(b),
        miernik_id(a) != miernik_id(b),
{
    let h = "host-"@;
    let m = "miernik-"@;
    assert((h + decimal_text(a)).skip(h.len() as int) =~= decimal_text(a));
    assert((h + decimal_text(b)).skip(h.len() as int) =~= decimal_text(b));
    assert((m + decimal_text(a)).skip(m.len() as int) =~= decimal_text(a));
    assert((m + decimal_text(b)).skip(m.len() as int) =~= decimal_text(b));
    if decimal_text(a) == decimal_text(b) {
        crate::decimal::lemma_decimal_text_injective(a, b);
    }
}

/// Numbered hosts and indicators stand under distinct identities, and none
/// has the next number yet.
pub proof fn lemma_numbered_distinct(m: Migration)
    requires
        numbered(m),
    ensures
        crate::text_map::distinct_keys(m.hosts),
        crate::text_map::distinct_keys(m.mierniki),
        !has_key(m.hosts, host_id(m.hosts.len() + 1)),
        !has_key(m.mierniki, miernik_id(m.mierniki.len() + 1)),
{
    assert forall|i: int, j: int| 0 <= i < j < m.hosts.len() implies (#[trigger] m.hosts[i]).0 != (
    #[trigger] m.hosts[j]).0 by {
        lemma_ids_differ((i + 1) as nat, (j + 1) as nat);
    }
    assert forall|i: int, j: int| 0 <= i < j < m.mierniki.len() implies (
    #[trigger] m.mierniki[i]).0 != (#[trigger] m.mierniki[j]).0 by {
        lemma_ids_differ((i + 1) as nat, (j + 1) as nat);
    }
    crate::text_map::lemma_position(m.hosts, host_id(m.hosts.len() + 1));
    let p = crate::text_map::position(m.hosts, host_id(m.hosts.len() + 1));
    if p < m.hosts.len() {
        assert(m.hosts[p].0 == host_id((p + 1) as nat));
        lemma_ids_differ((p + 1) as nat, m.hosts.len() + 1);
    }
    crate::text_map::lemma_position(m.mierniki, miernik_id(m.mierniki.len() + 1));
    let q = crate::text_map::position(m.mierniki, miernik_id(m.mierniki.len() + 1));
    if q < m.mierniki.len() {
        assert(m.mierniki[q].0 == miernik_id((q + 1) as nat));
        lemma_ids_differ((q + 1) as nat, m.mierniki.len() + 1);
    }
}

/// The indicator that is found for a kind is one of the indicators and is
/// of that kind.
pub proof fn lemma_matching_miernik(
    mierniki: Seq<(Seq<char>, MiernikConfigView)>,
    protocol: Seq<char>,
    commands: Seq<(Seq<char>, Seq<char>)>,
)
    ensures
        matching_miernik(mierniki, protocol, commands) matches Some(id) ==> exists|j: int|
            0 <= j < mierniki.len() && (#[trigger] mierniki[j]).0 == id && same_kind(
                mierniki[j].1,
                protocol,
                commands,
            ),
    decreases mierniki.len(),
{
    if mierniki.len() > 0 && !same_kind(mierniki[0].1, protocol, commands) {
        let rest = mierniki.drop_first();
        lemma_matching_miernik(rest, protocol, commands);
        if let Some(id) = matching_miernik(rest, protocol, commands) {
            let j = choose|j: int|
                0 <= j < rest.len() && (#[trigger] rest[j]).0 == id && same_kind(
                    rest[j].1,
                    protocol,
                    commands,
                );
            assert(mierniki[j + 1] == rest[j]);
        }
    }
}

/// One more device keeps hosts and indicators numbered, leaves those that
/// were there as they were, and adds at most one of each.
pub proof fn lemma_numbered_step(m: Migration, device_id: Seq<char>, device: LegacyDeviceConfigView)
    requires
        numbered(m),
    ensures
        numbered(m.step(device_id, device)),
        m.hosts.len() <= m.step(device_id, device).hosts.len() <= m.hosts.len() + 1,
        m.mierniki.len() <= m.step(device_id, device).mierniki.len() <= m.mierniki.len() + 1,
        forall|i: int|
            0 <= i < m.hosts.len() ==> (#[trigger] m.step(device_id, device).hosts[i])
                == m.hosts[i],
        forall|i: int|
            0 <= i < m.mierniki.len() ==> (#[trigger] m.step(device_id, device).mierniki[i])
                == m.mierniki[i],
{
    lemma_numbered_distinct(m);
    crate::text_map::lemma_with_entry(
        m.host_keys,
        host_key(device.connection),
        m.host_for(device.connection),
    );
}

/// Every device of the old layout gets a host that stands for its link and
/// an indicator of its dialect that knows the names of its commands; and
/// there are never more hosts or indicators than devices.
pub proof fn lemma_migration_links(devices: Seq<(Seq<char>, LegacyDeviceConfigView)>)
    requires
        crate::text_map::distinct_keys(devices),
    ensures
        numbered(migration(devices)),
        migrated(devices).hosts.len() <= devices.len(),
        migrated(devices).mierniki.len() <= devices.len(),
        forall|i: int|
            0 <= i < devices.len() ==> (lookup(
                migrated(devices).devices,
                (#[trigger] devices[i]).0,
            ) matches Some(d) && (lookup(migrated(devices).hosts, d.host_id) matches Some(host)
                && host_key(host.connection) == host_key(devices[i].1.connection)) && (lookup(
                migrated(devices).mierniki,
                d.miernik_id,
            ) matches Some(miernik) && same_kind(
                miernik,
                devices[i].1.protocol,
                devices[i].1.commands,
            ))),
    decreases devices.len(),
{
    if devices.len() > 0 {
        let rest = devices.drop_last();
        assert forall|i: int, j: int| 0 <= i < j < rest.len() implies (#[trigger] rest[i]).0 != (
        #[trigger] rest[j]).0 by {
            assert(rest[i] == devices[i] && rest[j] == devices[j]);
        }
        lemma_migration_links(rest);
        lemma_migration_keeps_devices(rest);
        lemma_migration_keeps_devices(devices);
        let before = migration(rest);
        let after = migration(devices);
        let (device_id, device) = devices.last();
        lemma_numbered_step(before, device_id, device);
        lemma_numbered_distinct(before);
        lemma_numbered_distinct(after);
        let host = before.host_for(device.connection);
        let miernik = before.miernik_for(device);
        let made = DeviceConfigView {
            name: device.name,
            manufacturer: device.manufacturer,
            model: device.model,
            host_id: host,
            miernik_id: miernik,
            enabled: device.enabled,
        };
        crate::text_map::lemma_with_entry(before.devices, device_id, made);
        lemma_kept_entries(before.hosts, after.hosts);
        lemma_kept_entries(before.mierniki, after.mierniki);
        assert forall|i: int| 0 <= i < devices.len() implies (lookup(
            after.devices,
            (#[trigger] devices[i]).0,
        ) matches Some(d) && (lookup(after.hosts, d.host_id) matches Some(h) && host_key(
            h.connection,
        ) == host_key(devices[i].1.connection)) && (lookup(after.mierniki, d.miernik_id) matches Some(
            k,
        ) && same_kind(k, devices[i].1.protocol, devices[i].1.commands))) by {
            if i < devices.len() - 1 {
                assert(devices[i] == rest[i]);
                assert(devices[i].0 != devices[devices.len() - 1].0);
                assert(lookup(after.devices, devices[i].0) == lookup(before.devices, rest[i].0));
            } else {
                assert(devices[i] == (device_id, device));
                assert(lookup(after.devices, device_id) == Some(made));
                // The host.
                let key = host_key(device.connection);
                if lookup(before.host_keys, key) is None {
                    crate::text_map::lemma_with_entry(
                        before.hosts,
                        host,
                        HostConfigView {
                            name: host_name(device.connection),
                            connection: device.connection,
                            timeout_ms: device.timeout_ms,
                            enabled: true,
                        },
                    );
                } else {
                    crate::text_map::lemma_position(before.host_keys, key);
                    let p = crate::text_map::position(before.host_keys, key);
                    assert(before.host_keys[p] == (
                        host_key(before.hosts[p].1.connection),
                        before.hosts[p].0,
                    ));
                    crate::text_map::lemma_position_is(before.hosts, host, p);
                    assert(lookup(before.hosts, host) == Some(before.hosts[p].1));
                }
                // The indicator.
                if matching_miernik(before.mierniki, device.protocol, device.commands) is None {
                    crate::text_map::lemma_with_entry(
                        before.mierniki,
                        miernik,
                        MiernikConfigView {
                            name: device.manufacturer + " "@ + device.model,
                            protocol: device.protocol,
                            manufacturer: device.manufacturer,
                            model: device.model,
                            commands: device.commands,
                            enabled: true,
                        },
                    );
                } else {
                    lemma_matching_miernik(before.mierniki, device.protocol, device.commands);
                    let j = choose|j: int|
                        0 <= j < before.mierniki.len() && (#[trigger] before.mierniki[j]).0
                            == miernik && same_kind(
                            before.mierniki[j].1,
                            device.protocol,
                            device.commands,
                        );
                    crate::text_map::lemma_position_is(before.mierniki, miernik, j);
                    assert(lookup(before.mierniki, miernik) == Some(before.mierniki[j].1));
                }
            }
        }
    }
}

/// Entries that stay in their places under distinct keys are found as
/// before.
pub proof fn lemma_kept_entries<T>(before: Seq<(Seq<char>, T)>, after: Seq<(Seq<char>, T)>)
    requires
        crate::text_map::distinct_keys(after),
        before.len() <= after.len(),
        forall|i: int| 0 <= i < before.len() ==> (#[trigger] after[i]) == before[i],
    ensures
        forall|key: Seq<char>|
            has_key(before, key) ==> #[trigger] lookup(after, key) == lookup(before, key),
{
    assert forall|key: Seq<char>| has_key(before, key) implies #[trigger] lookup(after, key)
        == lookup(before, key) by {
        crate::text_map::lemma_position(before, key);
        let p = crate::text_map::position(before, key);
        assert(after[p] == before[p]);
        assert forall|k: int| 0 <= k < p implies (#[trigger] after[k]).0 != key by {
            assert(after[k] == before[k]);
        }
        crate::text_map::lemma_position_is(after, key, p);
    }
}

/// A configuration that was read, and whether it had to be migrated from
/// the old layout: a migrated one is to be stored, after a copy of the old
/// file was kept.
#[derive(Debug)]
pub struct LoadedConfig {
    pub config: AppConfig,
    pub migrated: bool,
}

/// The message of a file that holds a configuration in neither layout.
pub open spec fn unreadable_config(path: Seq<char>, reason: Seq<char>) -> Seq<char> {
    "Failed to parse config file "@ + path + " (tried both new and legacy format): "@ + reason
}

/// How a host is to be probed.
#[derive(Debug)]
pub enum ProbeRequest {
    /// Open a TCP connection to the address, within the time, and close it.
    Tcp { host: String, port: u16, address: String, timeout_ms: u32 },
    /// Look for the serial port among those of the machine and open it
    /// briefly.
    Serial { port: String },
}

/// The mathematical content of a [`ProbeRequest`].
pub enum ProbeRequestView {
    Tcp { host: Seq<char>, port: u16, address: Seq<char>, timeout_ms: u32 },
    Serial { port: Seq<char> },
}

impl View for ProbeRequest {
    type V = ProbeRequestView;

    open spec fn view(&self) -> ProbeRequestView {
        match self {
            ProbeRequest::Tcp { host, port, address, timeout_ms } => ProbeRequestView::Tcp {
                host: host@,
                port: *port,
                address: address@,
                timeout_ms: *timeout_ms,
            },
            ProbeRequest::Serial { port } => ProbeRequestView::Serial { port: port@ },
        }
    }
}

/// How the probe of a host is to be made from its settings.
pub open spec fn probe_of(host: HostConfigView) -> ProbeRequestView {
    match host.connection {
        ConnectionConfigView::Tcp { host: address, port } => ProbeRequestView::Tcp {
            host: address,
            port,
            address: address + ":"@ + decimal_text(port as nat),
            timeout_ms: host.timeout_ms,
        },
        ConnectionConfigView::Serial { port, .. } => ProbeRequestView::Serial { port },
    }
}

impl DeviceManager {
    /// Turns a configuration of the old layout into the present one.
    /// Devices with the same link share a host, devices of the same dialect
    /// with the same names of commands share an indicator. It never fails.
    pub fn migrate_legacy_config(legacy: &LegacyAppConfig) -> (r: Result<AppConfig, BridgeError>)
        ensures
            r matches Ok(config) && config@ == migrated(legacy.devices@),
    {
        let mut hosts: TextMap<HostConfig> = TextMap::new();
        let mut host_keys: TextMap<String> = TextMap::new();
        let mut mierniki: TextMap<MiernikConfig> = TextMap::new();
        let mut devices: TextMap<DeviceConfig> = TextMap::new();
        let mut i: usize = 0;
        assert(legacy.devices@.take(0) =~= Seq::empty());
        while i < legacy.devices.len()
            invariant
                i <= legacy.devices@.len(),
                migration(legacy.devices@.take(i as int)) == (Migration {
                    hosts: hosts@,
                    host_keys: host_keys@,
                    mierniki: mierniki@,
                    devices: devices@,
                }),
            decreases legacy.devices@.len() - i,
        {
            let device_id = legacy.devices.key_at(i);
            let device = legacy.devices.value_at(i);
            proof {
                let next = legacy.devices@.take(i as int + 1);
                assert(next.drop_last() =~= legacy.devices@.take(i as int));
                assert(next.last() == legacy.devices@[i as int]);
            }
            let key = host_key_of(&device.connection);
            let host = match host_keys.get(key.as_str()) {
                Some(id) => id.clone(),
                None => {
                    let number = wide_decimal_string(hosts.len() as u128 + 1);
                    let id = join("host-", number.as_str());
                    hosts.insert(
                        id.clone(),
                        HostConfig {
                            name: host_name_of(&device.connection),
                            connection: device.connection.copy(),
                            timeout_ms: device.timeout_ms,
                            enabled: true,
                        },
                    );
                    host_keys.insert(key, id.clone());
                    id
                },
            };
            let miernik = match find_miernik(
                &mierniki,
                device.protocol.as_str(),
                &device.commands,
            ) {
                Some(id) => id,
                None => {
                    let number = wide_decimal_string(mierniki.len() as u128 + 1);
                    let id = join("miernik-", number.as_str());
                    mierniki.insert(
                        id.clone(),
                        MiernikConfig {
                            name: join3(device.manufacturer.as_str(), " ", device.model.as_str()),
                            protocol: device.protocol.clone(),
                            manufacturer: device.manufacturer.clone(),
                            model: device.model.clone(),
                            commands: device.commands.copy(),
                            enabled: true,
                        },
                    );
                    id
                },
            };
            devices.insert(
                device_id.clone(),
                DeviceConfig {
                    name: device.name.clone(),
                    manufacturer: device.manufacturer.clone(),
                    model: device.model.clone(),
                    host_id: host,
                    miernik_id: miernik,
                    enabled: device.enabled,
                },
            );
            i += 1;
        }
        assert(legacy.devices@.take(legacy.devices@.len() as int) =~= legacy.devices@);
        Ok(AppConfig { hosts, mierniki, devices })
    }

    /// Chooses the configuration of a file that was read. `current` is what
    /// the file holds in the present layout, if it holds that; `legacy` is
    /// what it holds in the old layout, or why it does not. The present
    /// layout is taken where it names a host or an indicator; else the old
    /// layout is migrated; a file in neither layout is a configuration
    /// error that names `path`.
    pub fn read_config(
        current: Option<AppConfig>,
        legacy: Result<LegacyAppConfig, String>,
        path: &str,
    ) -> (r: Result<LoadedConfig, BridgeError>)
        ensures
            match current {
                Some(config) if config@.hosts.len() > 0 || config@.mierniki.len() > 0 => r matches Ok(
                    loaded,
                ) && loaded.config@ == config@ && !loaded.migrated,
                _ => match legacy {
                    Ok(old) => r matches Ok(loaded) && loaded.config@ == migrated(old.devices@)
                        && loaded.migrated,
                    Err(reason) => r matches Err(e) && e@ == BridgeErrorView::ConfigurationError(
                        unreadable_config(path@, reason@),
                    ),
                },
            },
    {
        match current {
            Some(config) => {
                if !config.hosts.is_empty() || !config.mierniki.is_empty() {
                    return Ok(LoadedConfig { config, migrated: false });
                }
            },
            None => {},
        }
        match legacy {
            Ok(old) => match DeviceManager::migrate_legacy_config(&old) {
                Ok(config) => Ok(LoadedConfig { config, migrated: true }),
                Err(e) => Err(e),
            },
            Err(reason) => {
                let mut message = join3(
                    "Failed to parse config file ",
                    path,
                    " (tried both new and legacy format): ",
                );
                message.append(reason.as_str());
                Err(BridgeError::ConfigurationError(message))
            },
        }
    }

    /// Says how the host `host_id` is to be probed. A host that is not
    /// configured is not found.
    pub fn test_host_connection(&self, host_id: &str) -> (r: Result<ProbeRequest, BridgeError>)
        ensures
            match lookup(self@.hosts, host_id@) {
                Some(host) => r matches Ok(probe) && probe@ == probe_of(host),
                None => r matches Err(e) && e@ == BridgeErrorView::DeviceNotFound(
                    crate::device_manager::host_not_found(host_id@),
                ),
            },
    {
        let host = match self.get_host(host_id) {
            Ok(host) => host,
            Err(e) => {
                return Err(e);
            },
        };
        match host.connection {
            ConnectionConfig::Tcp { host: address, port } => {
                let full = join3(address.as_str(), ":", decimal_string(port as u64).as_str());
                Ok(
                    ProbeRequest::Tcp {
                        host: address,
                        port,
                        address: full,
                        timeout_ms: host.timeout_ms,
                    },
                )
            },
            ConnectionConfig::Serial { port, .. } => Ok(ProbeRequest::Serial { port }),
        }
    }
}

} // verus!

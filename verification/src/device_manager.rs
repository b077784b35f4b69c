//! The registry of devices.
//!
//! A [`DeviceManager`] holds what is configured (hosts, indicators and
//! devices) and one adapter for every enabled device. It decides; whoever
//! holds the sockets and ports acts on what it returns and reports back.

use crate::adapters::adapter::bridge_device_error;
use crate::adapters::adapter::bridge_link_error;
use crate::adapters::adapter::device_error;
use crate::adapters::adapter::link_error;
use crate::error::BridgeError;
use crate::error::BridgeErrorView;
use crate::host::commands::Event;
use crate::host::commands::EventView;
use crate::host::connection::ConnectStep;
use crate::host::connection::ConnectStepView;
use crate::host::connection::Connection;
use crate::host::connection::ConnectionTypeView;
use crate::host::connection::ConnectionView;
use crate::host::connection::LinkState;
use crate::host::connection::OpenOutcome;
use crate::host::connection::OpenOutcomeView;
use crate::host::connection::OpenRequest;
use crate::host::connection::OpenRequestView;
use crate::host::protocol::Protocol;
use crate::host::protocol::ProtocolView;
use crate::miernik::device::DeviceStep;
use crate::miernik::device::DeviceStepView;
use crate::miernik::device::DeviceView;
use crate::miernik::devices::lowercase_keys;
use crate::miernik::devices::made_device;
use crate::miernik::devices::DiniArgeoDFW;
use crate::miernik::devices::RinstrumC320;
use crate::models::device::ConnectionConfig;
use crate::models::device::ConnectionConfigView;
use crate::models::device::DeviceConfig;
use crate::models::device::DeviceConfigView;
use crate::models::host::AppConfig;
use crate::models::host::AppConfigView;
use crate::models::host::HostConfig;
use crate::models::host::HostConfigView;
use crate::models::miernik::MiernikConfig;
use crate::models::miernik::MiernikConfigView;
use crate::models::weight::ScaleCommandRequest;
use crate::models::weight::ScaleCommandResponse;
use crate::models::weight::ScaleCommandResponseView;
use crate::text_map::distinct_keys;
use crate::text_map::has_key;
use crate::text_map::lookup;
use crate::text_map::with_entry;
use crate::text_map::without_key;
use crate::text_map::Record;
use crate::text_map::TextMap;
use crate::views::join;
use crate::views::join3;
use crate::views::result_view;
use vstd::prelude::*;

verus! {

/// The adapter of one device: one of the kinds of scale that are
/// understood.
#[derive(Debug)]
pub enum Adapter {
    Rinstrum(RinstrumC320),
    DiniArgeo(DiniArgeoDFW),
}

impl View for Adapter {
    type V = DeviceView;

    open spec fn view(&self) -> DeviceView {
        match self {
            Adapter::Rinstrum(device) => device@,
            Adapter::DiniArgeo(device) => device@,
        }
    }
}

impl Record for Adapter {
    fn copy(&self) -> (r: Adapter) {
        match self {
            Adapter::Rinstrum(device) => Adapter::Rinstrum(device.copy()),
            Adapter::DiniArgeo(device) => Adapter::DiniArgeo(device.copy()),
        }
    }
}

impl Adapter {
    /// What a request to connect asks for.
    pub fn connect(&self) -> (step: ConnectStep)
        ensures
            step@ == self@.executor.connection.connect(),
    {
        match self {
            Adapter::Rinstrum(device) => device.connect(),
            Adapter::DiniArgeo(device) => device.connect(),
        }
    }

    /// Whether the link is open and free.
    pub fn is_connected(&self) -> (b: bool)
        ensures
            b == self@.is_connected(),
    {
        match self {
            Adapter::Rinstrum(device) => device.is_connected(),
            Adapter::DiniArgeo(device) => device.is_connected(),
        }
    }

    /// The adapter after an attempt to open its link, and what the attempt
    /// is reported as.
    pub fn finish_connect(self, outcome: OpenOutcome) -> (r: (Adapter, Result<(), BridgeError>))
        ensures
            r.0@ == self@.opened(outcome@),
            unit_view(r.1) == connect_result(self@, outcome@),
    {
        match self {
            Adapter::Rinstrum(mut device) => {
                let result = device.device.command_executor.connection.finish_connect(outcome);
                (Adapter::Rinstrum(device), connection_error(result))
            },
            Adapter::DiniArgeo(mut device) => {
                let result = device.device.command_executor.connection.finish_connect(outcome);
                (Adapter::DiniArgeo(device), connection_error(result))
            },
        }
    }

    /// The adapter with its link closed.
    pub fn disconnect(self) -> (r: Adapter)
        ensures
            r@ == self@.disconnected(),
    {
        match self {
            Adapter::Rinstrum(mut device) => {
                let _ = device.disconnect();
                Adapter::Rinstrum(device)
            },
            Adapter::DiniArgeo(mut device) => {
                let _ = device.disconnect();
                Adapter::DiniArgeo(device)
            },
        }
    }

    /// The adapter after the start of the command `command` as of the time
    /// `timestamp`, and what to do first.
    pub fn execute_command_at(self, command: &str, timestamp: i64) -> (r: (Adapter, DeviceStep))
        ensures
            (r.0@, r.1@) == self@.execute_command(command@, timestamp),
    {
        match self {
            Adapter::Rinstrum(mut device) => {
                let step = device.device.execute_command_at(command, timestamp);
                (Adapter::Rinstrum(device), step)
            },
            Adapter::DiniArgeo(mut device) => {
                let step = device.device.execute_command_at(command, timestamp);
                (Adapter::DiniArgeo(device), step)
            },
        }
    }

    /// The adapter after an event of a command under way as of the time
    /// `timestamp`, and what to do next.
    pub fn advance_at(self, event: Event, timestamp: i64) -> (r: (Adapter, DeviceStep))
        ensures
            (r.0@, r.1@) == self@.advance(event@, timestamp),
    {
        match self {
            Adapter::Rinstrum(mut device) => {
                let step = device.device.advance_at(event, timestamp);
                (Adapter::Rinstrum(device), step)
            },
            Adapter::DiniArgeo(mut device) => {
                let step = device.device.advance_at(event, timestamp);
                (Adapter::DiniArgeo(device), step)
            },
        }
    }
}

/// What the result of a report holds, with the error replaced by its view.
pub open spec fn unit_view(r: Result<(), BridgeError>) -> Result<(), BridgeErrorView> {
    match r {
        Ok(_) => Ok(()),
        Err(e) => Err(e@),
    }
}

/// What an attempt to open the link of a device is reported as: a failure
/// is the error of the link with its kind, a timeout or a connection error.
pub open spec fn connect_result(device: DeviceView, outcome: OpenOutcomeView) -> Result<
    (),
    BridgeErrorView,
> {
    match device.executor.connection.open_result(outcome) {
        Ok(_) => Ok(()),
        Err(e) => Err(link_error(e)),
    }
}

/// Turns the report of the link into the report of the bridge.
pub fn connection_error(result: Result<(), crate::host::error::HostError>) -> (r: Result<
    (),
    BridgeError,
>)
    ensures
        unit_view(r) == match crate::host::connection::unit_view(result) {
            Ok(_) => Ok(()),
            Err(e) => Err(link_error(e)),
        },
{
    match result {
        Ok(_) => Ok(()),
        Err(e) => Err(bridge_link_error(e)),
    }
}

/// The link that the settings of a host describe, not yet open.
pub open spec fn host_connection(host: HostConfigView) -> ConnectionView {
    ConnectionView {
        connection_type: match host.connection {
            ConnectionConfigView::Tcp { host, port } => ConnectionTypeView::Tcp { host, port },
            ConnectionConfigView::Serial {
                port,
                baud_rate,
                data_bits,
                stop_bits,
                parity,
                flow_control,
            } => ConnectionTypeView::Serial {
                port_path: port,
                baud_rate,
                data_bits,
                stop_bits,
                parity,
                flow_control,
            },
        },
        timeout_ms: host.timeout_ms,
        link: LinkState::Closed,
    }
}

/// The message of a device whose host is not configured.
pub open spec fn host_missing(host_id: Seq<char>, device_id: Seq<char>) -> Seq<char> {
    "Host '"@ + host_id + "' not found for device '"@ + device_id + "'"@
}

/// The message of a device whose indicator is not configured.
pub open spec fn miernik_missing(miernik_id: Seq<char>, device_id: Seq<char>) -> Seq<char> {
    "Miernik '"@ + miernik_id + "' not found for device '"@ + device_id + "'"@
}

/// The message of an indicator whose dialect is not understood.
pub open spec fn unsupported_protocol(protocol: Seq<char>) -> Seq<char> {
    "Unsupported protocol: "@ + protocol
}

/// The adapter of an enabled device: its host gives the link, its indicator
/// the dialect and the commands. A device whose host or indicator is not
/// configured, or whose dialect is not understood, is a configuration
/// error.
pub open spec fn resolved(
    hosts: Seq<(Seq<char>, HostConfigView)>,
    mierniki: Seq<(Seq<char>, MiernikConfigView)>,
    device_id: Seq<char>,
    device: DeviceConfigView,
) -> Result<DeviceView, BridgeErrorView> {
    match lookup(hosts, device.host_id) {
        None => Err(BridgeErrorView::ConfigurationError(host_missing(device.host_id, device_id))),
        Some(host) => match lookup(mierniki, device.miernik_id) {
            None => Err(
                BridgeErrorView::ConfigurationError(
                    miernik_missing(device.miernik_id, device_id),
                ),
            ),
            Some(miernik) => {
                let protocol = ProtocolView::from_str(miernik.protocol);
                if protocol.is_known() {
                    Ok(
                        made_device(
                            device_id,
                            host_connection(host),
                            protocol,
                            lowercase_keys(miernik.commands),
                        ),
                    )
                } else {
                    Err(
                        BridgeErrorView::ConfigurationError(
                            unsupported_protocol(miernik.protocol),
                        ),
                    )
                }
            },
        },
    }
}

/// The adapters of a configuration: one for every enabled device, in the
/// order of the devices. The first device in that order that cannot be
/// resolved fails the whole; no part of the adapters is left.
pub open spec fn built_adapters(
    hosts: Seq<(Seq<char>, HostConfigView)>,
    mierniki: Seq<(Seq<char>, MiernikConfigView)>,
    devices: Seq<(Seq<char>, DeviceConfigView)>,
) -> Result<Seq<(Seq<char>, DeviceView)>, BridgeErrorView>
    decreases devices.len(),
{
    if devices.len() == 0 {
        Ok(Seq::empty())
    } else {
        match built_adapters(hosts, mierniki, devices.drop_last()) {
            Err(e) => Err(e),
            Ok(adapters) => {
                let (device_id, device) = devices.last();
                if !device.enabled {
                    Ok(adapters)
                } else {
                    match resolved(hosts, mierniki, device_id, device) {
                        Err(e) => Err(e),
                        Ok(adapter) => Ok(with_entry(adapters, device_id, adapter)),
                    }
                }
            },
        }
    }
}

/// Every adapter belongs to a device that is configured and enabled.
pub open spec fn adapters_belong(
    devices: Seq<(Seq<char>, DeviceConfigView)>,
    adapters: Seq<(Seq<char>, DeviceView)>,
) -> bool {
    forall|i: int|
        0 <= i < adapters.len() ==> (lookup(devices, (#[trigger] adapters[i]).0) matches Some(d)
            && d.enabled)
}

/// The adapters that are built from a configuration belong to its enabled
/// devices, and every enabled device has one.
pub proof fn lemma_built_adapters(
    hosts: Seq<(Seq<char>, HostConfigView)>,
    mierniki: Seq<(Seq<char>, MiernikConfigView)>,
    devices: Seq<(Seq<char>, DeviceConfigView)>,
)
    requires
        distinct_keys(devices),
    ensures
        built_adapters(hosts, mierniki, devices) matches Ok(adapters) ==> {
            &&& distinct_keys(adapters)
            &&& adapters_belong(devices, adapters)
            &&& forall|key: Seq<char>|
                has_key(adapters, key) <==> (lookup(devices, key) matches Some(d) && d.enabled)
        },
    decreases devices.len(),
{
    if devices.len() > 0 {
        let rest = devices.drop_last();
        let (device_id, device) = devices.last();
        assert forall|i: int, j: int| 0 <= i < j < rest.len() implies (#[trigger] rest[i]).0 != (
        #[trigger] rest[j]).0 by {
            assert(rest[i] == devices[i] && rest[j] == devices[j]);
        }
        lemma_built_adapters(hosts, mierniki, rest);
        if let Ok(adapters) = built_adapters(hosts, mierniki, devices) {
            let before = built_adapters(hosts, mierniki, rest)->Ok_0;
            // The last device stands under a key of its own.
            assert forall|k: int| 0 <= k < rest.len() implies (#[trigger] rest[k]).0
                != device_id by {
                assert(rest[k] == devices[k]);
                assert(devices[k].0 != devices[devices.len() - 1].0);
            }
            crate::text_map::lemma_position_is(rest, device_id, rest.len() as int);
            assert forall|k: int| 0 <= k < devices.len() - 1 implies (#[trigger] devices[k]).0
                != device_id by {
                assert(devices[k].0 != devices[devices.len() - 1].0);
            }
            crate::text_map::lemma_position_is(devices, device_id, devices.len() - 1);
            assert forall|key: Seq<char>| key != device_id implies lookup(devices, key) == lookup(
                rest,
                key,
            ) by {
                crate::text_map::lemma_position(rest, key);
                let q = crate::text_map::position(rest, key);
                assert forall|k: int| 0 <= k < q implies (#[trigger] devices[k]).0 != key by {
                    assert(devices[k] == rest[k]);
                }
                if q < rest.len() {
                    assert(devices[q] == rest[q]);
                    crate::text_map::lemma_position_is(devices, key, q);
                } else {
                    assert forall|k: int| 0 <= k < devices.len() implies (#[trigger] devices[k]).0
                        != key by {
                        if k < rest.len() {
                            assert(devices[k] == rest[k]);
                        }
                    }
                    crate::text_map::lemma_position_is(devices, key, devices.len() as int);
                }
            }
            if device.enabled {
                let adapter = resolved(hosts, mierniki, device_id, device)->Ok_0;
                crate::text_map::lemma_with_entry(before, device_id, adapter);
            }
            assert forall|key: Seq<char>| has_key(adapters, key) <==> (lookup(
                devices,
                key,
            ) matches Some(d) && d.enabled) by {
                if key == device_id {
                    assert(lookup(devices, key) == Some(device));
                    assert(!has_key(before, device_id));
                } else {
                    assert(lookup(devices, key) == lookup(rest, key));
                    assert(has_key(before, key) <==> (lookup(rest, key) matches Some(d)
                        && d.enabled));
                    if device.enabled {
                        assert(lookup(adapters, key) == lookup(before, key));
                    }
                }
            }
            assert forall|i: int| 0 <= i < adapters.len() implies (lookup(
                devices,
                (#[trigger] adapters[i]).0,
            ) matches Some(d) && d.enabled) by {
                crate::text_map::lemma_position(adapters, adapters[i].0);
                assert(has_key(adapters, adapters[i].0));
            }
        }
    }
}

/// The link that the settings of a host describe, not yet open.
pub fn convert_host_to_connection(host_config: &HostConfig) -> (r: Result<
    Connection,
    BridgeError,
>)
    ensures
        r matches Ok(c) && c@ == host_connection(host_config@),
{
    match &host_config.connection {
        ConnectionConfig::Tcp { host, port } => Ok(
            Connection::tcp(host.clone(), *port, host_config.timeout_ms),
        ),
        ConnectionConfig::Serial {
            port,
            baud_rate,
            data_bits,
            stop_bits,
            parity,
            flow_control,
        } => Ok(
            Connection::serial(
                port.clone(),
                *baud_rate,
                *data_bits,
                *stop_bits,
                *parity,
                *flow_control,
                host_config.timeout_ms,
            ),
        ),
    }
}

/// The texts `a`, `b`, `c`, `d` and `e` in a row.
fn join5(a: &str, b: &str, c: &str, d: &str, e: &str) -> (s: String)
    ensures
        s@ == a@ + b@ + c@ + d@ + e@,
{
    let mut s = join3(a, b, c);
    s.append(d);
    s.append(e);
    s
}

/// Builds the adapter of one enabled device.
pub fn resolve_device(
    hosts: &TextMap<HostConfig>,
    mierniki: &TextMap<MiernikConfig>,
    device_id: &str,
    device: &DeviceConfig,
) -> (r: Result<Adapter, BridgeError>)
    ensures
        result_view(r) == resolved(hosts@, mierniki@, device_id@, device@),
{
    let host = match hosts.get(device.host_id.as_str()) {
        Some(host) => host,
        None => {
            return Err(
                BridgeError::ConfigurationError(
                    join5(
                        "Host '",
                        device.host_id.as_str(),
                        "' not found for device '",
                        device_id,
                        "'",
                    ),
                ),
            );
        },
    };
    let miernik = match mierniki.get(device.miernik_id.as_str()) {
        Some(miernik) => miernik,
        None => {
            return Err(
                BridgeError::ConfigurationError(
                    join5(
                        "Miernik '",
                        device.miernik_id.as_str(),
                        "' not found for device '",
                        device_id,
                        "'",
                    ),
                ),
            );
        },
    };
    let protocol = Protocol::from_str(miernik.protocol.as_str());
    let connection = match convert_host_to_connection(host) {
        Ok(connection) => connection,
        Err(e) => {
            return Err(e);
        },
    };
    let config = crate::miernik::models::DeviceConfig {
        name: device.name.clone(),
        manufacturer: miernik.manufacturer.clone(),
        model: miernik.model.clone(),
        protocol: miernik.protocol.clone(),
        commands: miernik.commands.copy(),
        enabled: device.enabled,
    };
    match protocol {
        Protocol::Rincmd => match RinstrumC320::from_config(
            device_id.to_string(),
            &config,
            connection,
        ) {
            Ok(adapter) => Ok(Adapter::Rinstrum(adapter)),
            Err(e) => Err(BridgeError::ConfigurationError(e.to_string())),
        },
        Protocol::DiniAscii => match DiniArgeoDFW::from_config(
            device_id.to_string(),
            &config,
            connection,
        ) {
            Ok(adapter) => Ok(Adapter::DiniArgeo(adapter)),
            Err(e) => Err(BridgeError::ConfigurationError(e.to_string())),
        },
        Protocol::Custom(_) => Err(
            BridgeError::ConfigurationError(
                join("Unsupported protocol: ", miernik.protocol.as_str()),
            ),
        ),
    }
}

/// What building the adapters returned, with each side replaced by its
/// view.
pub open spec fn adapters_view(r: Result<TextMap<Adapter>, BridgeError>) -> Result<
    Seq<(Seq<char>, DeviceView)>,
    BridgeErrorView,
> {
    match r {
        Ok(adapters) => Ok(adapters@),
        Err(e) => Err(e@),
    }
}

/// Builds the adapters of a configuration.
pub fn build_adapters(
    hosts: &TextMap<HostConfig>,
    mierniki: &TextMap<MiernikConfig>,
    devices: &TextMap<DeviceConfig>,
) -> (r: Result<TextMap<Adapter>, BridgeError>)
    ensures
        adapters_view(r) == built_adapters(hosts@, mierniki@, devices@),
{
    let mut adapters: TextMap<Adapter> = TextMap::new();
    let mut i: usize = 0;
    assert(devices@.take(0) =~= Seq::empty());
    while i < devices.len()
        invariant
            i <= devices@.len(),
            built_adapters(hosts@, mierniki@, devices@.take(i as int)) == Ok::<
                Seq<(Seq<char>, DeviceView)>,
                BridgeErrorView,
            >(adapters@),
        decreases devices@.len() - i,
    {
        let device_id = devices.key_at(i);
        let device = devices.value_at(i);
        proof {
            let next = devices@.take(i as int + 1);
            assert(next.drop_last() =~= devices@.take(i as int));
            assert(next.last() == devices@[i as int]);
            if i + 1 < devices@.len() {
                lemma_built_adapters_fails_on(hosts@, mierniki@, devices@, i as int + 1);
            } else {
                assert(next =~= devices@);
            }
        }
        if device.enabled {
            match resolve_device(hosts, mierniki, device_id.as_str(), device) {
                Ok(adapter) => {
                    adapters.insert(device_id.clone(), adapter);
                },
                Err(e) => {
                    return Err(e);
                },
            }
        }
        i += 1;
    }
    assert(devices@.take(devices@.len() as int) =~= devices@);
    Ok(adapters)
}

/// A configuration whose first `n` devices cannot be resolved cannot be
/// resolved as a whole, and fails with the same error.
pub proof fn lemma_built_adapters_fails_on(
    hosts: Seq<(Seq<char>, HostConfigView)>,
    mierniki: Seq<(Seq<char>, MiernikConfigView)>,
    devices: Seq<(Seq<char>, DeviceConfigView)>,
    n: int,
)
    requires
        0 <= n <= devices.len(),
    ensures
        built_adapters(hosts, mierniki, devices.take(n)) matches Err(e) ==> built_adapters(
            hosts,
            mierniki,
            devices,
        ) == Err::<Seq<(Seq<char>, DeviceView)>, BridgeErrorView>(e),
    decreases devices.len() - n,
{
    if n < devices.len() {
        let next = devices.take(n + 1);
        assert(next.drop_last() =~= devices.take(n));
        lemma_built_adapters_fails_on(hosts, mierniki, devices, n + 1);
    } else {
        assert(devices.take(n) =~= devices);
    }
}

/// The registry: what is configured, and the adapters of the enabled
/// devices.
#[derive(Debug)]
pub struct DeviceManager {
    hosts: TextMap<HostConfig>,
    mierniki: TextMap<MiernikConfig>,
    devices: TextMap<DeviceConfig>,
    adapters: TextMap<Adapter>,
}

/// The mathematical content of a [`DeviceManager`].
pub struct ManagerView {
    pub hosts: Seq<(Seq<char>, HostConfigView)>,
    pub mierniki: Seq<(Seq<char>, MiernikConfigView)>,
    pub devices: Seq<(Seq<char>, DeviceConfigView)>,
    pub adapters: Seq<(Seq<char>, DeviceView)>,
}

impl View for DeviceManager {
    type V = ManagerView;

    closed spec fn view(&self) -> ManagerView {
        ManagerView {
            hosts: self.hosts@,
            mierniki: self.mierniki@,
            devices: self.devices@,
            adapters: self.adapters@,
        }
    }
}

/// A reload that has begun. The handles of `disconnect` are to be dropped
/// first; only then is `replacement`, the registry of the new
/// configuration, put in the place of the old one with
/// [`DeviceManager::finish_reload`]. Until then no new adapter is to be
/// seen, so that no two adapters ever hold the same socket or port.
#[derive(Debug)]
pub struct ReloadPlan {
    pub disconnect: Vec<String>,
    pub replacement: DeviceManager,
}

/// The mathematical content of a [`ReloadPlan`].
pub struct ReloadPlanView {
    pub disconnect: Seq<Seq<char>>,
    pub replacement: ManagerView,
}

/// The texts of a vector of strings.
pub open spec fn texts(v: Seq<String>) -> Seq<Seq<char>> {
    Seq::new(v.len(), |i: int| v[i]@)
}

/// The content of a list of links to open.
pub open spec fn requests(v: Seq<(String, OpenRequest)>) -> Seq<(Seq<char>, OpenRequestView)> {
    Seq::new(v.len(), |i: int| (v[i].0@, v[i].1@))
}

/// The content of a list of devices.
pub open spec fn triples(v: Seq<(String, String, String)>) -> Seq<
    (Seq<char>, Seq<char>, Seq<char>),
> {
    Seq::new(v.len(), |i: int| (v[i].0@, v[i].1@, v[i].2@))
}

impl View for ReloadPlan {
    type V = ReloadPlanView;

    open spec fn view(&self) -> ReloadPlanView {
        ReloadPlanView { disconnect: texts(self.disconnect@), replacement: self.replacement@ }
    }
}

/// The keys of entries, in their order.
pub open spec fn keys<T>(entries: Seq<(Seq<char>, T)>) -> Seq<Seq<char>> {
    Seq::new(entries.len(), |i: int| entries[i].0)
}

/// Identity, name and model of every enabled device, in the order of the
/// devices.
pub open spec fn listed(devices: Seq<(Seq<char>, DeviceConfigView)>) -> Seq<
    (Seq<char>, Seq<char>, Seq<char>),
>
    decreases devices.len(),
{
    if devices.len() == 0 {
        Seq::empty()
    } else {
        let rest = listed(devices.drop_last());
        let (device_id, device) = devices.last();
        if device.enabled {
            rest.push((device_id, device.name, device.model))
        } else {
            rest
        }
    }
}

/// For every adapter whose link is not open, the link to open, in the order
/// of the adapters.
pub open spec fn to_connect(adapters: Seq<(Seq<char>, DeviceView)>) -> Seq<
    (Seq<char>, OpenRequestView),
>
    decreases adapters.len(),
{
    if adapters.len() == 0 {
        Seq::empty()
    } else {
        let rest = to_connect(adapters.drop_last());
        let (device_id, adapter) = adapters.last();
        match adapter.executor.connection.connect() {
            ConnectStepView::Open(request) => rest.push((device_id, request)),
            ConnectStepView::AlreadyConnected => rest,
        }
    }
}

/// The adapters with every link closed.
pub open spec fn all_disconnected(adapters: Seq<(Seq<char>, DeviceView)>) -> Seq<
    (Seq<char>, DeviceView),
> {
    Seq::new(adapters.len(), |i: int| (adapters[i].0, adapters[i].1.disconnected()))
}

/// The message of a device that is configured but not enabled.
pub open spec fn device_disabled(device_id: Seq<char>) -> Seq<char> {
    "Device "@ + device_id + " is disabled"@
}

/// The message of a host that is not configured.
pub open spec fn host_not_found(host_id: Seq<char>) -> Seq<char> {
    "Host '"@ + host_id + "' not found"@
}

/// The message of an indicator that is not configured.
pub open spec fn miernik_not_found(miernik_id: Seq<char>) -> Seq<char> {
    "Miernik '"@ + miernik_id + "' not found"@
}

/// What the holder of the sockets and ports does next for a command.
#[derive(Debug)]
pub enum CommandStep {
    /// Drop any handle held for the device, open its link anew and report
    /// how it went.
    Open(OpenRequest),
    /// Write all the bytes, flush, and report how it went.
    Write { bytes: Vec<u8>, timeout_ms: u32 },
    /// Read once and report what came.
    Read { timeout_ms: u32 },
    /// The command is done.
    Finished(Result<ScaleCommandResponse, BridgeError>),
}

/// The mathematical content of a [`CommandStep`].
pub enum CommandStepView {
    Open(OpenRequestView),
    Write { bytes: Seq<u8>, timeout_ms: u32 },
    Read { timeout_ms: u32 },
    Finished(Result<ScaleCommandResponseView, BridgeErrorView>),
}

impl View for CommandStep {
    type V = CommandStepView;

    open spec fn view(&self) -> CommandStepView {
        match self {
            CommandStep::Open(request) => CommandStepView::Open(request@),
            CommandStep::Write { bytes, timeout_ms } => CommandStepView::Write {
                bytes: bytes@,
                timeout_ms: *timeout_ms,
            },
            CommandStep::Read { timeout_ms } => CommandStepView::Read { timeout_ms: *timeout_ms },
            CommandStep::Finished(result) => CommandStepView::Finished(result_view(*result)),
        }
    }
}

impl CommandStepView {
    /// Whether the step asks for input or output on a link.
    pub open spec fn touches_link(self) -> bool {
        !(self is Finished)
    }
}

/// What a step of a device means for the command `command` to the device
/// `device_id`: input and output are passed on, a reading becomes the
/// answer to the command, and an error keeps its kind: an unknown command
/// stays an invalid command, an answer that cannot be read a protocol
/// error, and a timeout, a connection error or an input and output error
/// of the link what it is.
pub open spec fn command_step(step: DeviceStepView, device_id: Seq<char>, command: Seq<char>)
    -> CommandStepView {
    match step {
        DeviceStepView::Open(request) => CommandStepView::Open(request),
        DeviceStepView::Write { bytes, timeout_ms } => CommandStepView::Write { bytes, timeout_ms },
        DeviceStepView::Read { timeout_ms } => CommandStepView::Read { timeout_ms },
        DeviceStepView::Finished(Ok(reading)) => CommandStepView::Finished(
            Ok(
                ScaleCommandResponseView {
                    success: true,
                    device_id,
                    command,
                    result: Some(reading),
                    error: None,
                },
            ),
        ),
        DeviceStepView::Finished(Err(e)) => CommandStepView::Finished(Err(device_error(e))),
    }
}

/// Turns a step of a device into a step of a command.
pub fn step_for_command(step: DeviceStep, device_id: &str, command: &str) -> (r: CommandStep)
    ensures
        r@ == command_step(step@, device_id@, command@),
{
    match step {
        DeviceStep::Open(request) => CommandStep::Open(request),
        DeviceStep::Write { bytes, timeout_ms } => CommandStep::Write { bytes, timeout_ms },
        DeviceStep::Read { timeout_ms } => CommandStep::Read { timeout_ms },
        DeviceStep::Finished(Ok(reading)) => CommandStep::Finished(
            Ok(
                ScaleCommandResponse {
                    success: true,
                    device_id: device_id.to_string(),
                    command: command.to_string(),
                    result: Some(reading),
                    error: None,
                },
            ),
        ),
        DeviceStep::Finished(Err(e)) => CommandStep::Finished(Err(bridge_device_error(e))),
    }
}

impl ManagerView {
    /// No key stands twice, and every adapter belongs to a device that is
    /// configured and enabled.
    pub open spec fn wf(self) -> bool {
        &&& distinct_keys(self.hosts)
        &&& distinct_keys(self.mierniki)
        &&& distinct_keys(self.devices)
        &&& distinct_keys(self.adapters)
        &&& adapters_belong(self.devices, self.adapters)
    }

    /// The registry with its adapters replaced.
    pub open spec fn with_adapters(self, adapters: Seq<(Seq<char>, DeviceView)>) -> ManagerView {
        ManagerView { adapters, ..self }
    }

    /// The configuration of the registry.
    pub open spec fn config(self) -> AppConfigView {
        AppConfigView { hosts: self.hosts, mierniki: self.mierniki, devices: self.devices }
    }

    /// The registry of a configuration, or the error of the first device
    /// that cannot be resolved.
    pub open spec fn from_config(config: AppConfigView) -> Result<ManagerView, BridgeErrorView> {
        match built_adapters(config.hosts, config.mierniki, config.devices) {
            Ok(adapters) => Ok(
                ManagerView {
                    hosts: config.hosts,
                    mierniki: config.mierniki,
                    devices: config.devices,
                    adapters,
                },
            ),
            Err(e) => Err(e),
        }
    }

    /// What the first step of a reload with the configuration `config`
    /// makes of the registry, and what it asks for. The registry of the new
    /// configuration is built and set aside; the registry itself keeps its
    /// configuration and its adapters, each with its link closed, and every
    /// one of them is to be disconnected. A configuration that cannot be
    /// resolved changes nothing.
    pub open spec fn reloaded(self, config: AppConfigView) -> Result<
        (ManagerView, ReloadPlanView),
        BridgeErrorView,
    > {
        match ManagerView::from_config(config) {
            Ok(manager) => Ok(
                (
                    self.with_adapters(all_disconnected(self.adapters)),
                    ReloadPlanView { disconnect: keys(self.adapters), replacement: manager },
                ),
            ),
            Err(e) => Err(e),
        }
    }

    /// What the second step of a reload makes of the registry, and what it
    /// asks for: the registry that was set aside takes the place of the old
    /// one, and every adapter of it whose link is not open is to be
    /// connected.
    pub open spec fn installed(self, plan: ReloadPlanView) -> (
        ManagerView,
        Seq<(Seq<char>, OpenRequestView)>,
    ) {
        (plan.replacement, to_connect(plan.replacement.adapters))
    }

    /// The start of a command. A device that is not configured is not
    /// found; one that is not enabled refuses the command; one without an
    /// adapter is not found. In each of these cases nothing changes and no
    /// link is touched. Otherwise the adapter of the device starts the
    /// command.
    pub open spec fn execute_command(
        self,
        device_id: Seq<char>,
        command: Seq<char>,
        timestamp: i64,
    ) -> (ManagerView, CommandStepView) {
        match lookup(self.devices, device_id) {
            None => (
                self,
                CommandStepView::Finished(Err(BridgeErrorView::DeviceNotFound(device_id))),
            ),
            Some(device) => if !device.enabled {
                (
                    self,
                    CommandStepView::Finished(
                        Err(BridgeErrorView::InvalidCommand(device_disabled(device_id))),
                    ),
                )
            } else {
                match lookup(self.adapters, device_id) {
                    None => (
                        self,
                        CommandStepView::Finished(
                            Err(BridgeErrorView::DeviceNotFound(device_id)),
                        ),
                    ),
                    Some(adapter) => {
                        let (after, step) = adapter.execute_command(command, timestamp);
                        (
                            self.with_adapters(with_entry(self.adapters, device_id, after)),
                            command_step(step, device_id, command),
                        )
                    },
                }
            },
        }
    }

    /// What an event makes of a command under way. A device without an
    /// adapter is not found, and nothing changes.
    pub open spec fn advance(
        self,
        device_id: Seq<char>,
        command: Seq<char>,
        event: EventView,
        timestamp: i64,
    ) -> (ManagerView, CommandStepView) {
        match lookup(self.adapters, device_id) {
            None => (
                self,
                CommandStepView::Finished(Err(BridgeErrorView::DeviceNotFound(device_id))),
            ),
            Some(adapter) => {
                let (after, step) = adapter.advance(event, timestamp);
                (
                    self.with_adapters(with_entry(self.adapters, device_id, after)),
                    command_step(step, device_id, command),
                )
            },
        }
    }

    /// What the outcome of an attempt to open the link of a device makes of
    /// the registry, and what it is reported as.
    pub open spec fn finish_connect(self, device_id: Seq<char>, outcome: OpenOutcomeView) -> (
        ManagerView,
        Result<(), BridgeErrorView>,
    ) {
        match lookup(self.adapters, device_id) {
            None => (self, Err(BridgeErrorView::DeviceNotFound(device_id))),
            Some(adapter) => (
                self.with_adapters(with_entry(self.adapters, device_id, adapter.opened(outcome))),
                connect_result(adapter, outcome),
            ),
        }
    }

    /// The registry after the settings `config` were stored for the device
    /// `device_id`: the adapter that the device had is gone, and is built
    /// anew by the next reload.
    pub open spec fn saved(self, device_id: Seq<char>, config: DeviceConfigView) -> ManagerView {
        ManagerView {
            devices: with_entry(self.devices, device_id, config),
            adapters: without_key(self.adapters, device_id),
            ..self
        }
    }

    /// The registry without the device `device_id` and its adapter.
    pub open spec fn deleted(self, device_id: Seq<char>) -> ManagerView {
        ManagerView {
            devices: without_key(self.devices, device_id),
            adapters: without_key(self.adapters, device_id),
            ..self
        }
    }

    /// The devices whose handles are to be dropped when the device
    /// `device_id` is stored or deleted: the device itself where it has an
    /// adapter.
    pub open spec fn dropped(self, device_id: Seq<char>) -> Seq<Seq<char>> {
        if has_key(self.adapters, device_id) {
            seq![device_id]
        } else {
            Seq::empty()
        }
    }
}

/// The adapters with each key in its place and every link closed.
fn disconnected_copy(adapters: &TextMap<Adapter>) -> (r: TextMap<Adapter>)
    ensures
        r@ == all_disconnected(adapters@),
{
    proof {
        use_type_invariant(adapters);
    }
    let mut r: TextMap<Adapter> = TextMap::new();
    let mut i: usize = 0;
    assert(r@ =~= all_disconnected(adapters@).take(0));
    while i < adapters.len()
        invariant
            i <= adapters@.len(),
            distinct_keys(adapters@),
            r@ == all_disconnected(adapters@).take(i as int),
        decreases adapters@.len() - i,
    {
        let key = adapters.key_at(i).clone();
        let adapter = adapters.value_at(i).copy().disconnect();
        proof {
            let all = all_disconnected(adapters@);
            assert forall|k: int| 0 <= k < r@.len() implies (#[trigger] r@[k]).0 != key@ by {
                assert(r@[k] == all[k]);
                assert(adapters@[k].0 != adapters@[i as int].0);
            }
            crate::text_map::lemma_position_is(r@, key@, r@.len() as int);
            assert(all.take(i as int + 1) =~= all.take(i as int).push(all[i as int]));
        }
        r.insert(key, adapter);
        i += 1;
    }
    assert(all_disconnected(adapters@).take(adapters@.len() as int) =~= all_disconnected(
        adapters@,
    ));
    r
}

/// The keys of `adapters`, in their order.
fn keys_of(adapters: &TextMap<Adapter>) -> (r: Vec<String>)
    ensures
        texts(r@) == keys(adapters@),
{
    let mut r: Vec<String> = Vec::new();
    let mut i: usize = 0;
    while i < adapters.len()
        invariant
            i <= adapters@.len(),
            r.len() == i,
            forall|k: int| 0 <= k < i ==> (#[trigger] r@[k])@ == adapters@[k].0,
        decreases adapters@.len() - i,
    {
        r.push(adapters.key_at(i).clone());
        i += 1;
    }
    assert(texts(r@) =~= keys(adapters@));
    r
}

/// For every adapter whose link is not open, the link to open.
fn connects_of(adapters: &TextMap<Adapter>) -> (r: Vec<(String, OpenRequest)>)
    ensures
        requests(r@) == to_connect(adapters@),
{
    let mut r: Vec<(String, OpenRequest)> = Vec::new();
    let mut i: usize = 0;
    assert(adapters@.take(0) =~= Seq::empty());
    assert(requests(r@) =~= to_connect(adapters@.take(0)));
    while i < adapters.len()
        invariant
            i <= adapters@.len(),
            requests(r@) == to_connect(adapters@.take(i as int)),
        decreases adapters@.len() - i,
    {
        proof {
            let next = adapters@.take(i as int + 1);
            assert(next.drop_last() =~= adapters@.take(i as int));
            assert(next.last() == adapters@[i as int]);
        }
        let ghost before = requests(r@);
        match adapters.value_at(i).connect() {
            ConnectStep::Open(request) => {
                let key = adapters.key_at(i).clone();
                let ghost entry = (key@, request@);
                r.push((key, request));
                assert(requests(r@) =~= before.push(entry));
            },
            ConnectStep::AlreadyConnected => {},
        }
        i += 1;
    }
    assert(adapters@.take(adapters@.len() as int) =~= adapters@);
    r
}

impl DeviceManager {
    /// No key stands twice, and every adapter belongs to a device that is
    /// configured and enabled.
    #[verifier::type_invariant]
    pub closed spec fn wf(&self) -> bool {
        self@.wf()
    }

    /// The registry without hosts, indicators, devices and adapters.
    pub fn empty() -> (manager: DeviceManager)
        ensures
            manager@ == (ManagerView {
                hosts: Seq::empty(),
                mierniki: Seq::empty(),
                devices: Seq::empty(),
                adapters: Seq::empty(),
            }),
            manager@.wf(),
    {
        DeviceManager {
            hosts: TextMap::new(),
            mierniki: TextMap::new(),
            devices: TextMap::new(),
            adapters: TextMap::new(),
        }
    }

    /// The registry is well formed; stated for callers, who cannot see into
    /// it.
    pub fn check(&self)
        ensures
            self@.wf(),
    {
        proof {
            use_type_invariant(self);
        }
    }

    /// Takes the registry out and leaves an empty one.
    fn take(&mut self) -> (manager: DeviceManager)
        ensures
            manager@ == old(self)@,
            manager@.wf(),
    {
        let mut manager = DeviceManager::empty();
        std::mem::swap(self, &mut manager);
        proof {
            use_type_invariant(&manager);
        }
        manager
    }

    /// The registry of a configuration: one adapter for every enabled
    /// device. A device that cannot be resolved fails the whole.
    pub fn from_config(config: AppConfig) -> (r: Result<DeviceManager, BridgeError>)
        ensures
            result_view(r) == ManagerView::from_config(config@),
    {
        let adapters = match build_adapters(&config.hosts, &config.mierniki, &config.devices) {
            Ok(adapters) => adapters,
            Err(e) => {
                return Err(e);
            },
        };
        proof {
            use_type_invariant(&config.hosts);
            use_type_invariant(&config.mierniki);
            use_type_invariant(&config.devices);
            lemma_built_adapters(config@.hosts, config@.mierniki, config@.devices);
        }
        Ok(
            DeviceManager {
                hosts: config.hosts,
                mierniki: config.mierniki,
                devices: config.devices,
                adapters,
            },
        )
    }

    /// The configuration of the registry, as it is to be stored.
    pub fn to_config(&self) -> (config: AppConfig)
        ensures
            config@ == self@.config(),
    {
        AppConfig {
            hosts: self.hosts.copy(),
            mierniki: self.mierniki.copy(),
            devices: self.devices.copy(),
        }
    }

    /// Identity, name and model of every enabled device.
    pub fn get_devices(&self) -> (r: Vec<(String, String, String)>)
        ensures
            triples(r@) == listed(self@.devices),
    {
        let mut r: Vec<(String, String, String)> = Vec::new();
        let mut i: usize = 0;
        assert(self.devices@.take(0) =~= Seq::empty());
        assert(triples(r@) =~= listed(self.devices@.take(0)));
        while i < self.devices.len()
            invariant
                i <= self.devices@.len(),
                triples(r@) == listed(self.devices@.take(i as int)),
            decreases self.devices@.len() - i,
        {
            proof {
                let next = self.devices@.take(i as int + 1);
                assert(next.drop_last() =~= self.devices@.take(i as int));
                assert(next.last() == self.devices@[i as int]);
            }
            let device = self.devices.value_at(i);
            if device.enabled {
                let ghost before = triples(r@);
                let entry = (
                    self.devices.key_at(i).clone(),
                    device.name.clone(),
                    device.model.clone(),
                );
                let ghost added = (entry.0@, entry.1@, entry.2@);
                r.push(entry);
                assert(triples(r@) =~= before.push(added));
            }
            i += 1;
        }
        assert(self.devices@.take(self.devices@.len() as int) =~= self.devices@);
        r
    }

    /// The settings of every device, enabled or not.
    pub fn list_configs(&self) -> (r: TextMap<DeviceConfig>)
        ensures
            r@ == self@.devices,
    {
        self.devices.copy()
    }

    /// The settings of one device.
    pub fn get_config(&self, device_id: &str) -> (r: Result<DeviceConfig, BridgeError>)
        ensures
            result_view(r) == match lookup(self@.devices, device_id@) {
                Some(config) => Ok::<DeviceConfigView, BridgeErrorView>(config),
                None => Err(BridgeErrorView::DeviceNotFound(device_id@)),
            },
    {
        match self.devices.get(device_id) {
            Some(config) => Ok(config.copy()),
            None => Err(BridgeError::DeviceNotFound(device_id.to_string())),
        }
    }

    /// The settings of every host.
    pub fn list_hosts(&self) -> (r: TextMap<HostConfig>)
        ensures
            r@ == self@.hosts,
    {
        self.hosts.copy()
    }

    /// The settings of one host.
    pub fn get_host(&self, host_id: &str) -> (r: Result<HostConfig, BridgeError>)
        ensures
            result_view(r) == match lookup(self@.hosts, host_id@) {
                Some(config) => Ok::<HostConfigView, BridgeErrorView>(config),
                None => Err(BridgeErrorView::DeviceNotFound(host_not_found(host_id@))),
            },
    {
        match self.hosts.get(host_id) {
            Some(config) => Ok(config.copy()),
            None => Err(BridgeError::DeviceNotFound(join3("Host '", host_id, "' not found"))),
        }
    }

    /// Stores the settings of a host. Adapters are left as they are until
    /// the next reload.
    pub fn save_host(&mut self, host_id: &str, config: HostConfig) -> (r: Result<(), BridgeError>)
        ensures
            r is Ok,
            final(self)@ == (ManagerView {
                hosts: with_entry(old(self)@.hosts, host_id@, config@),
                ..old(self)@
            }),
    {
        let DeviceManager { mut hosts, mierniki, devices, adapters } = self.take();
        hosts.insert(host_id.to_string(), config);
        proof {
            use_type_invariant(&hosts);
        }
        *self = DeviceManager { hosts, mierniki, devices, adapters };
        Ok(())
    }

    /// Takes a host out. A host that is not configured is not found, and
    /// nothing changes.
    pub fn delete_host(&mut self, host_id: &str) -> (r: Result<(), BridgeError>)
        ensures
            final(self)@ == (ManagerView {
                hosts: without_key(old(self)@.hosts, host_id@),
                ..old(self)@
            }),
            unit_view(r) == if has_key(old(self)@.hosts, host_id@) {
                Ok::<(), BridgeErrorView>(())
            } else {
                Err(BridgeErrorView::DeviceNotFound(host_not_found(host_id@)))
            },
    {
        let DeviceManager { mut hosts, mierniki, devices, adapters } = self.take();
        let removed = hosts.remove(host_id);
        proof {
            use_type_invariant(&hosts);
        }
        *self = DeviceManager { hosts, mierniki, devices, adapters };
        match removed {
            Some(_) => Ok(()),
            None => Err(BridgeError::DeviceNotFound(join3("Host '", host_id, "' not found"))),
        }
    }

    /// The settings of every indicator.
    pub fn list_mierniki(&self) -> (r: TextMap<MiernikConfig>)
        ensures
            r@ == self@.mierniki,
    {
        self.mierniki.copy()
    }

    /// The settings of one indicator.
    pub fn get_miernik(&self, miernik_id: &str) -> (r: Result<MiernikConfig, BridgeError>)
        ensures
            result_view(r) == match lookup(self@.mierniki, miernik_id@) {
                Some(config) => Ok::<MiernikConfigView, BridgeErrorView>(config),
                None => Err(BridgeErrorView::DeviceNotFound(miernik_not_found(miernik_id@))),
            },
    {
        match self.mierniki.get(miernik_id) {
            Some(config) => Ok(config.copy()),
            None => Err(
                BridgeError::DeviceNotFound(join3("Miernik '", miernik_id, "' not found")),
            ),
        }
    }

    /// Stores the settings of an indicator. Adapters are left as they are
    /// until the next reload.
    pub fn save_miernik(&mut self, miernik_id: &str, config: MiernikConfig) -> (r: Result<
        (),
        BridgeError,
    >)
        ensures
            r is Ok,
            final(self)@ == (ManagerView {
                mierniki: with_entry(old(self)@.mierniki, miernik_id@, config@),
                ..old(self)@
            }),
    {
        let DeviceManager { hosts, mut mierniki, devices, adapters } = self.take();
        mierniki.insert(miernik_id.to_string(), config);
        proof {
            use_type_invariant(&mierniki);
        }
        *self = DeviceManager { hosts, mierniki, devices, adapters };
        Ok(())
    }

    /// Takes an indicator out. An indicator that is not configured is not
    /// found, and nothing changes.
    pub fn delete_miernik(&mut self, miernik_id: &str) -> (r: Result<(), BridgeError>)
        ensures
            final(self)@ == (ManagerView {
                mierniki: without_key(old(self)@.mierniki, miernik_id@),
                ..old(self)@
            }),
            unit_view(r) == if has_key(old(self)@.mierniki, miernik_id@) {
                Ok::<(), BridgeErrorView>(())
            } else {
                Err(BridgeErrorView::DeviceNotFound(miernik_not_found(miernik_id@)))
            },
    {
        let DeviceManager { hosts, mut mierniki, devices, adapters } = self.take();
        let removed = mierniki.remove(miernik_id);
        proof {
            use_type_invariant(&mierniki);
        }
        *self = DeviceManager { hosts, mierniki, devices, adapters };
        match removed {
            Some(_) => Ok(()),
            None => Err(
                BridgeError::DeviceNotFound(join3("Miernik '", miernik_id, "' not found")),
            ),
        }
    }

    /// Stores the settings of a device. The adapter that the device had is
    /// taken out; the handle of each returned device is to be dropped, and
    /// a reload is due.
    pub fn save_config(&mut self, device_id: &str, config: DeviceConfig) -> (r: Result<
        Vec<String>,
        BridgeError,
    >)
        ensures
            final(self)@ == old(self)@.saved(device_id@, config@),
            r matches Ok(dropped) && texts(dropped@) == old(self)@.dropped(device_id@),
    {
        let DeviceManager { hosts, mierniki, mut devices, mut adapters } = self.take();
        let ghost before_devices = devices@;
        let ghost before_adapters = adapters@;
        proof {
            crate::text_map::lemma_with_entry(before_devices, device_id@, config@);
            crate::text_map::lemma_without_key(before_adapters, device_id@);
        }
        devices.insert(device_id.to_string(), config);
        let removed = adapters.remove(device_id);
        proof {
            use_type_invariant(&devices);
            use_type_invariant(&adapters);
            lemma_belong_without(before_devices, devices@, before_adapters, device_id@);
        }
        *self = DeviceManager { hosts, mierniki, devices, adapters };
        let mut dropped: Vec<String> = Vec::new();
        if removed.is_some() {
            dropped.push(device_id.to_string());
            assert(texts(dropped@) =~= seq![device_id@]);
        } else {
            assert(texts(dropped@) =~= Seq::<Seq<char>>::empty());
        }
        Ok(dropped)
    }

    /// Takes a device and its adapter out. A device that is not configured
    /// is not found, and nothing changes. The handle of each returned
    /// device is to be dropped, and a reload is due.
    pub fn delete_config(&mut self, device_id: &str) -> (r: Result<Vec<String>, BridgeError>)
        ensures
            match r {
                Ok(dropped) => has_key(old(self)@.devices, device_id@) && final(self)@ == old(
                    self,
                )@.deleted(device_id@) && texts(dropped@) == old(self)@.dropped(device_id@),
                Err(e) => !has_key(old(self)@.devices, device_id@) && final(self)@ == old(self)@
                    && e@ == BridgeErrorView::DeviceNotFound(device_id@),
            },
    {
        if !self.devices.contains_key(device_id) {
            return Err(BridgeError::DeviceNotFound(device_id.to_string()));
        }
        let DeviceManager { hosts, mierniki, mut devices, mut adapters } = self.take();
        let ghost before_devices = devices@;
        let ghost before_adapters = adapters@;
        proof {
            crate::text_map::lemma_without_key(before_devices, device_id@);
            crate::text_map::lemma_without_key(before_adapters, device_id@);
        }
        devices.remove(device_id);
        let removed = adapters.remove(device_id);
        proof {
            use_type_invariant(&devices);
            use_type_invariant(&adapters);
            lemma_belong_without(before_devices, devices@, before_adapters, device_id@);
        }
        *self = DeviceManager { hosts, mierniki, devices, adapters };
        let mut dropped: Vec<String> = Vec::new();
        if removed.is_some() {
            dropped.push(device_id.to_string());
            assert(texts(dropped@) =~= seq![device_id@]);
        } else {
            assert(texts(dropped@) =~= Seq::<Seq<char>>::empty());
        }
        Ok(dropped)
    }

    /// Begins a reload with the configuration `config`: builds the registry
    /// of the new configuration and sets it aside in the plan, closes the
    /// link of every adapter of the old one and names them all, to be
    /// disconnected. The new adapters are not to be seen before
    /// [`DeviceManager::finish_reload`]. A configuration that cannot be
    /// resolved changes nothing.
    pub fn reload_config(&mut self, config: AppConfig) -> (r: Result<ReloadPlan, BridgeError>)
        ensures
            match old(self)@.reloaded(config@) {
                Ok((manager, plan)) => r matches Ok(p) && p@ == plan && final(self)@ == manager,
                Err(e) => r matches Err(x) && x@ == e && final(self)@ == old(self)@,
            },
    {
        let replacement = match DeviceManager::from_config(config) {
            Ok(manager) => manager,
            Err(e) => {
                return Err(e);
            },
        };
        let disconnect = self.disconnect_all_devices();
        Ok(ReloadPlan { disconnect, replacement })
    }

    /// Ends a reload, once the handles that its plan names have been
    /// dropped: puts the registry of the new configuration in the place of
    /// the old one and returns, for every new adapter, the link to open.
    /// Each outcome is to be reported to [`DeviceManager::finish_connect`].
    pub fn finish_reload(&mut self, plan: ReloadPlan) -> (r: Vec<(String, OpenRequest)>)
        ensures
            (final(self)@, requests(r@)) == old(self)@.installed(plan@),
    {
        *self = plan.replacement;
        connects_of(&self.adapters)
    }

    /// For every adapter whose link is not open, the link to open. Each
    /// outcome is to be reported to [`DeviceManager::finish_connect`]; a
    /// link that cannot be opened does not keep the others from being
    /// opened.
    pub fn connect_all_devices(&self) -> (r: Vec<(String, OpenRequest)>)
        ensures
            requests(r@) == to_connect(self@.adapters),
    {
        connects_of(&self.adapters)
    }

    /// Takes the outcome of an attempt to open the link of a device.
    pub fn finish_connect(&mut self, device_id: &str, outcome: OpenOutcome) -> (r: Result<
        (),
        BridgeError,
    >)
        ensures
            (final(self)@, unit_view(r)) == old(self)@.finish_connect(device_id@, outcome@),
    {
        let adapter = match self.adapters.get(device_id) {
            Some(adapter) => adapter.copy(),
            None => {
                return Err(BridgeError::DeviceNotFound(device_id.to_string()));
            },
        };
        let (after, result) = adapter.finish_connect(outcome);
        self.put_adapter(device_id, after);
        result
    }

    /// Closes the link of every adapter and returns the devices whose
    /// handles are to be dropped: all that have an adapter.
    pub fn disconnect_all_devices(&mut self) -> (r: Vec<String>)
        ensures
            final(self)@ == old(self)@.with_adapters(all_disconnected(old(self)@.adapters)),
            texts(r@) == keys(old(self)@.adapters),
    {
        let DeviceManager { hosts, mierniki, devices, adapters } = self.take();
        let r = keys_of(&adapters);
        let closed = disconnected_copy(&adapters);
        proof {
            use_type_invariant(&closed);
            let before = adapters@;
            let after = closed@;
            assert forall|i: int| 0 <= i < after.len() implies (lookup(
                devices@,
                (#[trigger] after[i]).0,
            ) matches Some(d) && d.enabled) by {
                assert(after[i].0 == before[i].0);
            }
        }
        *self = DeviceManager { hosts, mierniki, devices, adapters: closed };
        r
    }

    /// Puts `adapter` in the place of the adapter of `device_id`.
    fn put_adapter(&mut self, device_id: &str, adapter: Adapter)
        requires
            has_key(old(self)@.adapters, device_id@),
        ensures
            final(self)@ == old(self)@.with_adapters(
                with_entry(old(self)@.adapters, device_id@, adapter@),
            ),
    {
        let DeviceManager { hosts, mierniki, devices, mut adapters } = self.take();
        let ghost before = adapters@;
        proof {
            crate::text_map::lemma_position(before, device_id@);
        }
        adapters.insert(device_id.to_string(), adapter);
        proof {
            use_type_invariant(&adapters);
            let after = adapters@;
            assert forall|i: int| 0 <= i < after.len() implies (lookup(
                devices@,
                (#[trigger] after[i]).0,
            ) matches Some(d) && d.enabled) by {
                assert(after[i].0 == before[i].0);
            }
        }
        *self = DeviceManager { hosts, mierniki, devices, adapters };
    }

    /// Starts the command of `request` as of the time `timestamp` and says
    /// what to do first.
    pub fn execute_command_at(&mut self, request: &ScaleCommandRequest, timestamp: i64) -> (step:
        CommandStep)
        ensures
            (final(self)@, step@) == old(self)@.execute_command(
                request.device_id@,
                request.command@,
                timestamp,
            ),
    {
        let device_id = request.device_id.as_str();
        match self.devices.get(device_id) {
            None => {
                return CommandStep::Finished(
                    Err(BridgeError::DeviceNotFound(device_id.to_string())),
                );
            },
            Some(device) => {
                if !device.enabled {
                    return CommandStep::Finished(
                        Err(
                            BridgeError::InvalidCommand(
                                join3("Device ", device_id, " is disabled"),
                            ),
                        ),
                    );
                }
            },
        }
        let adapter = match self.adapters.get(device_id) {
            Some(adapter) => adapter.copy(),
            None => {
                return CommandStep::Finished(
                    Err(BridgeError::DeviceNotFound(device_id.to_string())),
                );
            },
        };
        let (after, step) = adapter.execute_command_at(request.command.as_str(), timestamp);
        self.put_adapter(device_id, after);
        step_for_command(step, device_id, request.command.as_str())
    }

    /// Takes what came of the last step of the command of `request`, as of
    /// the time `timestamp`, and says what to do next.
    pub fn advance_at(&mut self, request: &ScaleCommandRequest, event: Event, timestamp: i64) -> (step:
        CommandStep)
        ensures
            (final(self)@, step@) == old(self)@.advance(
                request.device_id@,
                request.command@,
                event@,
                timestamp,
            ),
    {
        let device_id = request.device_id.as_str();
        let adapter = match self.adapters.get(device_id) {
            Some(adapter) => adapter.copy(),
            None => {
                return CommandStep::Finished(
                    Err(BridgeError::DeviceNotFound(device_id.to_string())),
                );
            },
        };
        let (after, step) = adapter.advance_at(event, timestamp);
        self.put_adapter(device_id, after);
        step_for_command(step, device_id, request.command.as_str())
    }

    /// Starts the command of `request` and says what to do first. A
    /// reading carries the time at which it was read.
    pub fn execute_command(&mut self, request: &ScaleCommandRequest) -> (step: CommandStep)
        ensures
            exists|timestamp: i64|
                (final(self)@, step@) == #[trigger] old(self)@.execute_command(
                    request.device_id@,
                    request.command@,
                    timestamp,
                ),
    {
        let timestamp = crate::clock::now_millis();
        self.execute_command_at(request, timestamp)
    }

    /// Takes what came of the last step of the command of `request` and
    /// says what to do next. A reading carries the time at which it was
    /// read.
    pub fn advance(&mut self, request: &ScaleCommandRequest, event: Event) -> (step: CommandStep)
        ensures
            exists|timestamp: i64|
                (final(self)@, step@) == #[trigger] old(self)@.advance(
                    request.device_id@,
                    request.command@,
                    event@,
                    timestamp,
                ),
    {
        let timestamp = crate::clock::now_millis();
        self.advance_at(request, event, timestamp)
    }
}

/// Adapters that belong to devices still belong to them once the adapter of
/// one device is taken out and the settings of no other device have
/// changed.
proof fn lemma_belong_without(
    devices: Seq<(Seq<char>, DeviceConfigView)>,
    changed: Seq<(Seq<char>, DeviceConfigView)>,
    adapters: Seq<(Seq<char>, DeviceView)>,
    device_id: Seq<char>,
)
    requires
        distinct_keys(adapters),
        adapters_belong(devices, adapters),
        forall|other: Seq<char>|
            other != device_id ==> #[trigger] lookup(changed, other) == lookup(devices, other),
    ensures
        adapters_belong(changed, without_key(adapters, device_id)),
{
    let after = without_key(adapters, device_id);
    crate::text_map::lemma_without_key(adapters, device_id);
    crate::text_map::lemma_position(adapters, device_id);
    let p = crate::text_map::position(adapters, device_id);
    assert forall|i: int| 0 <= i < after.len() implies (lookup(
        changed,
        (#[trigger] after[i]).0,
    ) matches Some(d) && d.enabled) by {
        let key = after[i].0;
        if p < adapters.len() {
            let j = if i < p {
                i
            } else {
                i + 1
            };
            assert(after[i] == adapters[j]);
            assert(adapters[j].0 != adapters[p].0);
            assert(lookup(changed, key) == lookup(devices, key));
        } else {
            assert(after[i] == adapters[i]);
            assert(adapters[i].0 != device_id);
            assert(lookup(changed, key) == lookup(devices, key));
        }
    }
}

/// A command to a device that is configured but not enabled is refused as
/// an invalid command: the registry stays as it is and no link is touched.
pub proof fn lemma_disabled_device_refuses(
    manager: ManagerView,
    device_id: Seq<char>,
    command: Seq<char>,
    timestamp: i64,
)
    requires
        lookup(manager.devices, device_id) matches Some(device) && !device.enabled,
    ensures
        manager.execute_command(device_id, command, timestamp) == (
            manager,
            CommandStepView::Finished(
                Err(BridgeErrorView::InvalidCommand(device_disabled(device_id))),
            ),
        ),
        !manager.execute_command(device_id, command, timestamp).1.touches_link(),
{
}

/// A command to a device that is not configured fails with the device not
/// found: the registry stays as it is and no link is touched.
pub proof fn lemma_unknown_device_not_found(
    manager: ManagerView,
    device_id: Seq<char>,
    command: Seq<char>,
    timestamp: i64,
)
    requires
        !has_key(manager.devices, device_id),
    ensures
        manager.execute_command(device_id, command, timestamp) == (
            manager,
            CommandStepView::Finished(Err(BridgeErrorView::DeviceNotFound(device_id))),
        ),
        !manager.execute_command(device_id, command, timestamp).1.touches_link(),
{
}

/// A command whose name the device does not know, in whatever case it is
/// written, is refused as an invalid command: the registry stays as it is
/// and no link is touched.
pub proof fn lemma_unknown_command_is_invalid(
    manager: ManagerView,
    device_id: Seq<char>,
    command: Seq<char>,
    timestamp: i64,
)
    requires
        manager.wf(),
        lookup(manager.devices, device_id) matches Some(device) && device.enabled,
        lookup(manager.adapters, device_id) matches Some(adapter) && adapter.raw_command(command)
            is None,
    ensures
        manager.execute_command(device_id, command, timestamp) == (
            manager,
            CommandStepView::Finished(
                Err(
                    BridgeErrorView::InvalidCommand(
                        crate::miernik::device::unknown_command(command),
                    ),
                ),
            ),
        ),
        !manager.execute_command(device_id, command, timestamp).1.touches_link(),
{
    crate::text_map::lemma_position(manager.adapters, device_id);
    let adapter = lookup(manager.adapters, device_id)->0;
    assert(with_entry(manager.adapters, device_id, adapter) =~= manager.adapters);
}

/// An error keeps its kind on its way from the device to the caller of the
/// registry: an unknown command stays an invalid command, an answer that
/// cannot be read a protocol error, a configuration error a configuration
/// error, and a timeout, a connection error and an error of input or
/// output of the link stay what they are, each with its message.
pub proof fn lemma_errors_keep_their_kind(
    e: crate::miernik::error::MiernikErrorView,
    device_id: Seq<char>,
    command: Seq<char>,
)
    ensures
        command_step(DeviceStepView::Finished(Err(e)), device_id, command)
            == CommandStepView::Finished(Err(device_error(e))),
        e matches crate::miernik::error::MiernikErrorView::InvalidCommand(m) ==> device_error(e)
            == BridgeErrorView::InvalidCommand(m),
        e matches crate::miernik::error::MiernikErrorView::ProtocolError(m) ==> device_error(e)
            == BridgeErrorView::ProtocolError(m),
        e matches crate::miernik::error::MiernikErrorView::ConfigurationError(m) ==> device_error(
            e,
        ) == BridgeErrorView::ConfigurationError(m),
        e matches crate::miernik::error::MiernikErrorView::HostError(
            crate::host::error::HostErrorView::Timeout(m),
        ) ==> device_error(e) == BridgeErrorView::Timeout(m),
        e matches crate::miernik::error::MiernikErrorView::HostError(
            crate::host::error::HostErrorView::ConnectionError(m),
        ) ==> device_error(e) == BridgeErrorView::ConnectionError(m),
        e matches crate::miernik::error::MiernikErrorView::HostError(
            crate::host::error::HostErrorView::IoError(m),
        ) ==> device_error(e) == BridgeErrorView::IoError(m),
{
}

/// No adapter is ever made for a device that is not enabled: in a well
/// formed registry such a device has none.
pub proof fn lemma_disabled_device_has_no_adapter(manager: ManagerView, device_id: Seq<char>)
    requires
        manager.wf(),
        lookup(manager.devices, device_id) matches Some(device) ==> !device.enabled,
    ensures
        !has_key(manager.adapters, device_id),
{
    crate::text_map::lemma_position(manager.adapters, device_id);
    if has_key(manager.adapters, device_id) {
        let i = crate::text_map::position(manager.adapters, device_id);
        assert(manager.adapters[i].0 == device_id);
    }
}

/// A reload goes in two steps. After the first the registry still has the
/// configuration and the adapters of before and no other, every one of
/// them with its link closed and named in the plan to be disconnected: no
/// new adapter is to be seen yet. After the second the registry lists
/// exactly the enabled devices of the new configuration and has an adapter
/// for exactly these, none of which holds a link yet, and every one of
/// which is to be connected.
pub proof fn lemma_reload(manager: ManagerView, config: AppConfigView)
    requires
        manager.wf(),
        distinct_keys(config.hosts),
        distinct_keys(config.mierniki),
        distinct_keys(config.devices),
        manager.reloaded(config) is Ok,
    ensures
        ({
            let (during, plan) = manager.reloaded(config)->Ok_0;
            let (after, connect) = during.installed(plan);
            &&& during.config() == manager.config()
            &&& keys(during.adapters) == keys(manager.adapters)
            &&& plan.disconnect == keys(manager.adapters)
            &&& forall|i: int|
                0 <= i < during.adapters.len() ==> !(#[trigger] during.adapters[i]).1.is_connected()
            &&& connect == to_connect(after.adapters)
            &&& after.wf()
            &&& after.config() == config
            &&& listed(after.devices) == listed(config.devices)
            &&& forall|key: Seq<char>|
                has_key(after.adapters, key) <==> (lookup(config.devices, key) matches Some(d)
                    && d.enabled)
            &&& forall|i: int|
                0 <= i < manager.adapters.len() ==> plan.disconnect.contains(
                    (#[trigger] manager.adapters[i]).0,
                )
            &&& forall|i: int|
                0 <= i < after.adapters.len() ==> !(#[trigger] after.adapters[i]).1.is_connected()
        }),
{
    let (during, plan) = manager.reloaded(config)->Ok_0;
    lemma_built_adapters(config.hosts, config.mierniki, config.devices);
    assert forall|i: int| 0 <= i < manager.adapters.len() implies plan.disconnect.contains(
        (#[trigger] manager.adapters[i]).0,
    ) by {
        assert(plan.disconnect[i] == manager.adapters[i].0);
    }
    assert(keys(during.adapters) =~= keys(manager.adapters));
    lemma_built_adapters_closed(config.hosts, config.mierniki, config.devices);
}

/// Every adapter that is built from a configuration has its link closed.
pub proof fn lemma_built_adapters_closed(
    hosts: Seq<(Seq<char>, HostConfigView)>,
    mierniki: Seq<(Seq<char>, MiernikConfigView)>,
    devices: Seq<(Seq<char>, DeviceConfigView)>,
)
    ensures
        built_adapters(hosts, mierniki, devices) matches Ok(adapters) ==> forall|i: int|
            0 <= i < adapters.len() ==> !(#[trigger] adapters[i]).1.is_connected(),
    decreases devices.len(),
{
    if devices.len() > 0 {
        lemma_built_adapters_closed(hosts, mierniki, devices.drop_last());
        if let Ok(adapters) = built_adapters(hosts, mierniki, devices) {
            let before = built_adapters(hosts, mierniki, devices.drop_last())->Ok_0;
            let (device_id, device) = devices.last();
            if device.enabled {
                let adapter = resolved(hosts, mierniki, device_id, device)->Ok_0;
                crate::text_map::lemma_position(before, device_id);
                assert forall|i: int| 0 <= i < adapters.len() implies !(
                #[trigger] adapters[i]).1.is_connected() by {
                    if adapters[i] != (device_id, adapter) {
                        assert(adapters[i] == before[i]);
                    }
                }
            }
        }
    }
}

/// A command to one device leaves the adapter of every other device as it
/// was, at its start and at every later step.
pub proof fn lemma_other_devices_untouched(
    manager: ManagerView,
    device_id: Seq<char>,
    command: Seq<char>,
    event: EventView,
    timestamp: i64,
    other: Seq<char>,
)
    requires
        manager.wf(),
        other != device_id,
    ensures
        lookup(manager.execute_command(device_id, command, timestamp).0.adapters, other) == lookup(
            manager.adapters,
            other,
        ),
        lookup(manager.advance(device_id, command, event, timestamp).0.adapters, other) == lookup(
            manager.adapters,
            other,
        ),
{
    if let Some(adapter) = lookup(manager.adapters, device_id) {
        crate::text_map::lemma_with_entry(
            manager.adapters,
            device_id,
            adapter.execute_command(command, timestamp).0,
        );
        crate::text_map::lemma_with_entry(
            manager.adapters,
            device_id,
            adapter.advance(event, timestamp).0,
        );
    }
}

} // verus!

//! Construction of a partial node: how it reaches the DA light node, which
//! subsystems it builds and in what order, and where its sync store starts.
use vstd::prelude::*;
use vstd::string::StringExecFns;
use crate::sync_store::{initialized, DaDB};

verus! {

/// Capacity of the channel that carries batches from ingress to execution.
pub const TRANSACTION_CHANNEL_CAPACITY: usize = 16;

/// The character of a decimal digit.
pub open spec fn digit_char(d: nat) -> char {
    if d == 0 { '0' }
    else if d == 1 { '1' }
    else if d == 2 { '2' }
    else if d == 3 { '3' }
    else if d == 4 { '4' }
    else if d == 5 { '5' }
    else if d == 6 { '6' }
    else if d == 7 { '7' }
    else if d == 8 { '8' }
    else { '9' }
}

/// The decimal digits of `n`, most significant first, without leading zeros.
pub open spec fn decimal(n: nat) -> Seq<char>
    decreases n,
{
    if n < 10 {
        seq![digit_char(n)]
    } else {
        decimal(n / 10) + seq![digit_char(n % 10)]
    }
}

/// The address of the light node: `protocol://hostname:port`.
pub open spec fn endpoint_of(protocol: Seq<char>, hostname: Seq<char>, port: u16) -> Seq<char> {
    protocol + seq![':', '/', '/'] + hostname + seq![':'] + decimal(port as nat)
}

fn digit_str(d: u16) -> (r: &'static str)
    requires
        d < 10,
    ensures
        r@ == seq![digit_char(d as nat)],
{
    proof {
        reveal_strlit("0");
        reveal_strlit("1");
        reveal_strlit("2");
        reveal_strlit("3");
        reveal_strlit("4");
        reveal_strlit("5");
        reveal_strlit("6");
        reveal_strlit("7");
        reveal_strlit("8");
        reveal_strlit("9");
    }
    match d {
        0 => "0",
        1 => "1",
        2 => "2",
        3 => "3",
        4 => "4",
        5 => "5",
        6 => "6",
        7 => "7",
        8 => "8",
        _ => "9",
    }
}

fn append_decimal(s: &mut String, n: u16)
    ensures
        final(s)@ == old(s)@ + decimal(n as nat),
    decreases n,
{
    if n >= 10 {
        append_decimal(s, n / 10);
    }
    s.append(digit_str(n % 10));
    proof {
        if n >= 10 {
            assert(old(s)@ + decimal(n as nat) =~= old(s)@ + decimal((n / 10) as nat) + seq![
                digit_char((n % 10) as nat),
            ]);
        }
    }
}

/// The transport that the DA light node client speaks.
#[derive(Clone, Copy, Debug, PartialEq, Eq, Structural)]
pub enum WireVariant {
    Http1,
    Http2,
}

/// What the configuration says of the DA light node.
#[derive(Clone, Debug)]
pub struct LightNodeSettings {
    pub protocol: String,
    pub hostname: String,
    pub port: u16,
    /// Whether to connect over HTTP/1 rather than HTTP/2.
    pub http1: bool,
    /// The DA height that a fresh sync store starts from.
    pub initial_height: u64,
}

/// How to reach the DA light node.
#[derive(Clone, Debug)]
pub struct LightNodeConnection {
    pub endpoint: String,
    pub variant: WireVariant,
}

/// The address and transport of the DA light node.
pub fn light_node_connection(settings: &LightNodeSettings) -> (r: LightNodeConnection)
    ensures
        r.endpoint@ == endpoint_of(settings.protocol@, settings.hostname@, settings.port),
        r.variant == (if settings.http1 {
            WireVariant::Http1
        } else {
            WireVariant::Http2
        }),
{
    let mut endpoint = settings.protocol.clone();
    proof {
        reveal_strlit("://");
        reveal_strlit(":");
    }
    endpoint.append("://");
    endpoint.append(settings.hostname.as_str());
    endpoint.append(":");
    append_decimal(&mut endpoint, settings.port);
    let variant = if settings.http1 {
        WireVariant::Http1
    } else {
        WireVariant::Http2
    };
    LightNodeConnection { endpoint, variant }
}

/// A subsystem that node construction builds.
#[derive(Clone, Copy, Debug, PartialEq, Eq, Structural)]
pub enum Subsystem {
    LightNodeClient,
    Executor,
    SettlementClient,
    RestService,
    SyncStore,
}

/// The subsystems that construction builds, in order: the settlement client
/// only when the node settles.
pub open spec fn construction_order(should_settle: bool) -> Seq<Subsystem> {
    if should_settle {
        seq![
            Subsystem::LightNodeClient,
            Subsystem::Executor,
            Subsystem::SettlementClient,
            Subsystem::RestService,
            Subsystem::SyncStore,
        ]
    } else {
        seq![
            Subsystem::LightNodeClient,
            Subsystem::Executor,
            Subsystem::RestService,
            Subsystem::SyncStore,
        ]
    }
}

/// The subsystems to build, in dependency order.
pub fn construction_steps(should_settle: bool) -> (r: Vec<Subsystem>)
    ensures
        r@ == construction_order(should_settle),
{
    let mut steps: Vec<Subsystem> = Vec::new();
    steps.push(Subsystem::LightNodeClient);
    steps.push(Subsystem::Executor);
    if should_settle {
        steps.push(Subsystem::SettlementClient);
    }
    steps.push(Subsystem::RestService);
    steps.push(Subsystem::SyncStore);
    proof {
        assert(steps@ =~= construction_order(should_settle));
    }
    steps
}

/// With settlement disabled, construction builds no settlement client.
pub proof fn lemma_no_settlement_client(should_settle: bool)
    ensures
        !should_settle ==> !construction_order(should_settle).contains(Subsystem::SettlementClient),
        should_settle ==> construction_order(should_settle).contains(Subsystem::SettlementClient),
{
    if should_settle {
        assert(construction_order(should_settle)[2] == Subsystem::SettlementClient);
    } else {
        let o = construction_order(should_settle);
        assert forall|i: int| 0 <= i < o.len() implies o[i] != Subsystem::SettlementClient by {}
    }
}

/// The sync store as construction leaves it: the height read back from disk,
/// if there is one, else the configured starting height.
pub fn prepare_store(stored: Option<u64>, initial_height: u64) -> (r: DaDB)
    ensures
        r@ == initialized(stored, initial_height),
        r@ is Some,
{
    let mut db = DaDB::from_stored(stored);
    db.initialize_synced_height(initial_height);
    db
}

} // verus!

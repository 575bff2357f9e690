//! What a caller asks for, and the commands that the controller is sent.
use vstd::prelude::*;

verus! {

/// The address kind used for the own address when none is configured: public.
pub const PUBLIC_ADDR_KIND: u8 = 0;

/// A device address with its kind, as an accept-list entry or a sync target.
#[derive(Clone, Copy, Debug, PartialEq, Eq)]
pub struct Address {
    pub kind: u8,
    pub addr: [u8; 6],
}

/// Whether the controller reports every advertiser or only those on the accept list.
#[derive(Clone, Copy, Debug, PartialEq, Eq, Structural)]
pub enum FilterPolicy {
    Unfiltered,
    Filtered,
}

/// A scan request. Interval and window are in microseconds, the timeout in clock
/// ticks; a zero timeout means no deadline. `phys` is the set of radio layers to
/// scan on, one bit each.
#[derive(Clone, Debug)]
pub struct ScanConfig {
    pub active: bool,
    pub interval: u64,
    pub window: u64,
    pub phys: u8,
    pub filter_accept_list: Vec<Address>,
    pub timeout: u64,
}

/// The parameters of a periodic advertising sync, handed to the controller as they are.
#[derive(Clone, Copy, Debug, PartialEq, Eq)]
pub struct SyncParams {
    pub options: u8,
    pub adv_sid: u8,
    pub adv_addr: Address,
    pub skip: u16,
    pub sync_timeout: u16,
    pub sync_cte_kind: u8,
}

/// One controller command, with the values the sequencer chose for it.
#[derive(Clone, Debug, PartialEq, Eq)]
pub enum Command {
    /// Replace the accept list by these addresses (clear, then add each).
    SetAcceptFilter { addresses: Vec<Address> },
    SetScanParams { active: bool, interval: u64, window: u64, own_addr_kind: u8, filter: FilterPolicy },
    SetScanEnable { enable: bool, filter_duplicates: bool },
    SetExtScanParams {
        own_addr_kind: u8,
        filter: FilterPolicy,
        phys: u8,
        active: bool,
        interval: u64,
        window: u64,
    },
    /// `duration` and `period` in microseconds; both are ignored when disabling.
    SetExtScanEnable { enable: bool, filter_duplicates: bool, duration: u64, period: u64 },
    CreatePeriodicSync { params: SyncParams },
}

/// The layer at which a transaction failed.
#[derive(Clone, Copy, Debug, PartialEq, Eq, Structural)]
pub enum Stage {
    AcceptFilter,
    Parameters,
    Enable,
    PeriodicSync,
}

/// The layer that a command belongs to.
pub open spec fn stage_of(c: Command) -> Stage {
    match c {
        Command::SetAcceptFilter { .. } => Stage::AcceptFilter,
        Command::SetScanParams { .. } => Stage::Parameters,
        Command::SetExtScanParams { .. } => Stage::Parameters,
        Command::SetScanEnable { .. } => Stage::Enable,
        Command::SetExtScanEnable { .. } => Stage::Enable,
        Command::CreatePeriodicSync { .. } => Stage::PeriodicSync,
    }
}

impl Command {
    /// The layer that this command belongs to, for error reports.
    pub fn stage(&self) -> (r: Stage)
        ensures
            r == stage_of(*self),
    {
        match self {
            Command::SetAcceptFilter { .. } => Stage::AcceptFilter,
            Command::SetScanParams { .. } => Stage::Parameters,
            Command::SetExtScanParams { .. } => Stage::Parameters,
            Command::SetScanEnable { .. } => Stage::Enable,
            Command::SetExtScanEnable { .. } => Stage::Enable,
            Command::CreatePeriodicSync { .. } => Stage::PeriodicSync,
        }
    }
}

/// Unfiltered for an empty accept list, filtered otherwise.
pub open spec fn filter_policy_of(list: Seq<Address>) -> FilterPolicy {
    if list.len() == 0 {
        FilterPolicy::Unfiltered
    } else {
        FilterPolicy::Filtered
    }
}

/// The filter policy that an accept list calls for.
pub fn filter_policy(list: &Vec<Address>) -> (r: FilterPolicy)
    ensures
        r == filter_policy_of(list@),
{
    if list.len() == 0 {
        FilterPolicy::Unfiltered
    } else {
        FilterPolicy::Filtered
    }
}

/// Relies on bt_hci::param::AddrKind::PUBLIC, declared in its source as `AddrKind(0)`.
#[verifier::external_body]
pub(crate) fn public_addr_kind() -> (r: u8)
    ensures
        r == PUBLIC_ADDR_KIND,
{
    bt_hci::param::AddrKind::PUBLIC.into_inner()
}

/// The own address kind, public when none is configured.
pub open spec fn own_kind_of(k: Option<u8>) -> u8 {
    match k {
        Some(x) => x,
        None => PUBLIC_ADDR_KIND,
    }
}

/// A copy of an address list.
pub fn copy_addresses(list: &Vec<Address>) -> (r: Vec<Address>)
    ensures
        r@ == list@,
{
    let mut out: Vec<Address> = Vec::new();
    let mut i: usize = 0;
    while i < list.len()
        invariant
            i <= list@.len(),
            out@ == list@.subrange(0, i as int),
        decreases list@.len() - i,
    {
        out.push(list[i]);
        i = i + 1;
        assert(out@ =~= list@.subrange(0, i as int));
    }
    assert(out@ =~= list@);
    out
}

} // verus!

use vstd::prelude::*;

verus! {

/// One trillion cycles.
pub const TRILLION_CYCLES: u64 = 1_000_000_000_000;
/// Cycles that spinning up one canister costs: half a trillion.
pub const CANISTER_SPINUP_CYCLES: u64 = 500_000_000_000;
/// Margin kept on top of cycle estimates: one billion.
pub const CYCLES_SAFETY_MARGIN: u64 = 1_000_000_000;
/// Cycles needed to spin up a project canister.
pub const MIN_CYCLES_FOR_PROJECT_CANISTER_SPINUP: u64 = TRILLION_CYCLES * 10 + CANISTER_SPINUP_CYCLES;
/// Cycles needed to spin up a project (two canisters).
pub const MIN_CYCLES_FOR_PROJECT_SPINUP: u64 = MIN_CYCLES_FOR_PROJECT_CANISTER_SPINUP * 2;
/// Cycles needed to spin up a canister.
pub const MIN_CYCLES_FOR_CANISTER_SPINUP: u64 = TRILLION_CYCLES * 3;
/// Fee for a canister, in ten-thousandths of an XDR (0.5 XDR).
pub const XDR_FEE_FOR_CANISTER: u64 = 5_000;
/// Fee for a project, in ten-thousandths of an XDR (10 XDR).
pub const XDR_FEE_FOR_PROJECT: u64 = 100_000;
/// Cycles needed to spin up a canister on a development setup.
pub const MIN_CYCLES_FOR_CANISTER_SPINUP_DEV: u64 = TRILLION_CYCLES - CYCLES_SAFETY_MARGIN;
/// Development fee for a canister, in ten-thousandths of an XDR.
pub const XDR_FEE_FOR_CANISTER_DEV: u64 = 500;
/// Development fee for the core, in ten-thousandths of an XDR.
pub const XDR_FEE_FOR_CORE_DEV: u64 = 500;
/// Memo of a ledger transfer that tops up a canister ("TPUP").
pub const MEMO_TOP_UP_CANISTER: u64 = 0x50555054;
/// Memo of a ledger transfer that creates a canister ("CREA").
pub const MEMO_CREATE_CANISTER: u64 = 1095062083;
/// Flat fee of an ICP ledger transfer, in e8s.
pub const ICP_TRANSACTION_FEE: u64 = 10_000;
/// e8s in one ICP.
pub const ICP_E8S: u64 = 100_000_000;
/// Seconds in a day.
pub const DAY_IN_SECONDS: u64 = 86400;
/// Nanoseconds in an hour.
pub const NANOSECONDS_PER_HOUR: u64 = 3_600_000_000_000;

/// `hours` in nanoseconds.
pub fn hours_to_nanoseconds(hours: u64) -> (r: u64)
    requires
        hours * NANOSECONDS_PER_HOUR <= u64::MAX,
    ensures
        r == hours * 60 * 60 * 1_000_000_000,
{
    let minutes_per_hour: u64 = 60;
    let seconds_per_minute: u64 = 60;
    let nanoseconds_per_second: u64 = 1_000_000_000;
    proof {
        assert(hours * 60 <= hours * NANOSECONDS_PER_HOUR) by (nonlinear_arith)
            requires hours >= 0;
        assert(hours * 60 * 60 <= hours * NANOSECONDS_PER_HOUR) by (nonlinear_arith)
            requires hours >= 0;
        assert(hours * 60 * 60 * 1_000_000_000 == hours * NANOSECONDS_PER_HOUR) by (nonlinear_arith);
    }
    hours * minutes_per_hour * seconds_per_minute * nanoseconds_per_second
}

/// Cycles bought by one ICP at a rate of `xdr_permyriad_per_icp`
/// ten-thousandths of an XDR per ICP (one XDR buys a trillion cycles).
pub fn cycles_per_icp_at_rate(xdr_permyriad_per_icp: u64) -> (r: u64)
    requires
        xdr_permyriad_per_icp * TRILLION_CYCLES <= u64::MAX,
    ensures
        r == xdr_permyriad_per_icp * TRILLION_CYCLES / 10_000int,
{
    xdr_permyriad_per_icp * TRILLION_CYCLES / 10_000
}

/// An XDR fee (in ten-thousandths of an XDR) in ICP e8s, at a rate of
/// `xdr_permyriad_per_icp`; rounded down.
pub fn icp_fee_in_e8s_at_rate(xdr_fee: u64, xdr_permyriad_per_icp: u64) -> (r: u64)
    requires
        xdr_permyriad_per_icp > 0,
        xdr_fee * ICP_E8S <= u64::MAX,
    ensures
        r == xdr_fee * ICP_E8S / (xdr_permyriad_per_icp as int),
{
    xdr_fee * ICP_E8S / xdr_permyriad_per_icp
}

/// What is left of `icp_amount` e8s once `fees` ledger transfer fees are paid.
pub fn amount_after_fees(icp_amount: u64, fees: u64) -> (r: u64)
    requires
        fees * ICP_TRANSACTION_FEE <= icp_amount,
    ensures
        r == icp_amount - fees * ICP_TRANSACTION_FEE,
{
    icp_amount - fees * ICP_TRANSACTION_FEE
}

} // verus!

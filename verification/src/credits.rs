//! Structs and routing for credits.
//!
//! The wire API exposes the credit sub-resources (incomes, expenses,
//! members, transactions, transfers) as filtered views selected by a
//! reserved `"type"` option rather than by distinct operations; that quirk
//! is isolated here, behind the same routing interface as every other
//! category.

use vstd::prelude::*;
use crate::errors::{invalid_operation, is_invalid_operation_error, APIError};
use crate::option::{lookup, Options};
use crate::param::Param;
use crate::request::Op;
use crate::strutil::str_eq;

verus! {

/// The credits account summary.
#[derive(Clone, Debug)]
pub struct Credits {
    /// Current number of available credits.
    pub current_balance: u32,
    /// Do we perform a credit check before creating the measurement?
    pub credit_checked: bool,
    /// Maximum number of credits that can be spent in a day.
    pub max_daily_credits: u32,
    /// Total estimated daily income from all income items.
    pub estimated_daily_income: u32,
    /// Total estimated daily expenditure from all expense items.
    pub estimated_daily_expenditure: u32,
    /// Estimated daily income minus estimated daily expenditure.
    pub estimated_daily_balance: u32,
    /// Time that the estimates were produced.
    pub calculation_time: String,
    /// Estimated elapsed time until the balance drops to zero.
    pub estimated_runout_seconds: Option<u32>,
    /// Number of results from user-defined measurements in the past day.
    pub past_day_measurement_results: u32,
    /// Number of credits spent in the past day.
    pub past_day_credits_spent: u32,
    /// Last time the account was debited.
    pub last_date_debited: String,
    /// Last time the account was credited.
    pub last_date_credited: String,
    /// URL of the income-items list.
    pub income_items: String,
    /// URL of the expense-items list.
    pub expense_items: String,
    /// URL of the transactions list.
    pub transactions: String,
}

/// Eligibility for claiming bonus credits.
#[derive(Clone, Debug)]
pub struct ClaimRequests {
    /// Members to claim credits for.
    pub members: Vec<Member>,
}

/// Income generated by a probe.
#[derive(Clone, Debug)]
pub struct ProbeIncome {
    /// ID of the probe.
    pub probe_id: u32,
    /// URL of the probe in the probes API.
    pub probe: String,
    /// Description of this income item.
    pub description: String,
    /// Credits earned from this probe being connected for a full day.
    pub max_daily_connected_income: u32,
    /// Estimated credits earned from this probe per day.
    pub estimated_daily_income: String,
}

/// Income generated by a probe one is hosting.
#[derive(Clone, Debug)]
pub struct HostedProbeIncome {
    /// ID of the probe.
    pub probe_id: u32,
    /// URL of the probe in the probes API.
    pub probe: String,
    /// Description of this income item.
    pub description: String,
    /// Credits earned from this probe being connected for a full day.
    pub max_daily_connected_income: u32,
    /// Estimated credits earned from this probe per day.
    pub estimated_daily_income: String,
    /// Credits awarded yesterday for measurement results from the probe.
    pub yesterday_results_reward: u32,
}

/// Income generated by the different kinds of probes.
#[derive(Clone, Debug)]
pub struct IncomeGroups {
    /// Connected probes that you host or directly manage.
    pub hosted_probes: Vec<HostedProbeIncome>,
    /// Connected probes that you sponsor.
    pub sponsored_probes: Vec<ProbeIncome>,
    /// Connected probes for which you are an ambassador.
    pub ambassador_probes: Vec<ProbeIncome>,
    /// Connected anchors that you host or directly manage.
    pub hosted_anchors: Vec<HostedProbeIncome>,
    /// Connected anchors that you sponsor.
    pub sponsored_anchors: Vec<ProbeIncome>,
}

/// Expenses for a given measurement.
#[derive(Clone, Debug)]
pub struct MeasurementExpense {
    /// ID of the measurement.
    pub measurement_id: u32,
    /// URL of the measurement in the measurements API.
    pub measurement: String,
    /// Description of this expense item.
    pub description: String,
    /// Time when this measurement started or will start.
    pub scheduled_start_time: String,
    /// Time when this measurement is scheduled to stop, if at all.
    pub scheduled_stop_time: String,
    /// Scheduled running time within the next day, in seconds.
    pub next_day_running_time_seconds: u32,
    /// Best available estimate of the number of participating probes.
    pub estimated_participants: u32,
    /// Estimated daily cost.
    pub estimated_daily_cost: u32,
}

/// All income items.
#[derive(Clone, Debug)]
pub struct IncomeItems {
    /// Grouped list of income items.
    pub groups: Vec<IncomeGroups>,
    /// Total estimated daily income from all income items.
    pub total_estimated_daily_income: u32,
}

/// Data for transferring credits to a specific user.
#[derive(Clone, Debug)]
pub struct Transfer {
    /// How many credits to transfer.
    pub amount: u32,
    /// Email address of the receiving user.
    pub recipient: String,
}

/// A member's data.
#[derive(Clone, Debug)]
pub struct Member {
    /// Registry ID.
    pub reg_id: String,
    /// Number of times credits were ever claimed for this member.
    pub total_claims: u32,
    /// Whether this member is currently eligible for claiming credits.
    pub can_claim: bool,
    /// The last time any user claimed credits for this member.
    pub last_claim: String,
    /// The next time this member will be eligible for claiming credits.
    pub next_claim: String,
    /// Human-readable name of this member.
    pub name: String,
}

/// A list of members.
#[derive(Clone, Debug)]
pub struct MemberListing {
    /// The members.
    pub members: Vec<Member>,
}

/// An expense group.
#[derive(Clone, Debug)]
pub struct ExpenseGroup {
    /// Measurements scheduled by and billed to you.
    pub owned_measurements: Vec<MeasurementExpense>,
    /// Measurements scheduled by other users that are billed to you.
    pub billed_measurements: Vec<MeasurementExpense>,
}

/// All expense items.
#[derive(Clone, Debug)]
pub struct ExpenseItems {
    /// Grouped list of expense groups.
    pub groups: Vec<ExpenseGroup>,
    /// Total estimated daily expenditure from all expense items.
    pub total_estimated_daily_expenditure: u32,
}

/// The operation the reserved `"type"` option selects for the Credits
/// category; without the option, or with an unknown value, the account
/// summary is addressed.
pub open spec fn credits_op(opts: Seq<(Seq<char>, Seq<char>)>) -> Op {
    match lookup(opts, "type"@) {
        Some(v) => if v == "income-items"@ {
            Op::Incomes
        } else if v == "expense-items"@ {
            Op::Expenses
        } else if v == "members"@ {
            Op::Members
        } else if v == "transactions"@ {
            Op::Transactions
        } else if v == "transfer"@ {
            Op::Transfers
        } else {
            Op::Info
        },
        None => Op::Info,
    }
}

/// Read the `"type"` option and select the credits operation.
pub fn credits_op_exec(opts: &Options) -> (r: Op)
    requires
        opts.wf(),
    ensures
        r == credits_op(opts.entries()),
{
    match opts.get("type") {
        Some(v) => {
            if str_eq(v.as_str(), "income-items") {
                Op::Incomes
            } else if str_eq(v.as_str(), "expense-items") {
                Op::Expenses
            } else if str_eq(v.as_str(), "members") {
                Op::Members
            } else if str_eq(v.as_str(), "transactions") {
                Op::Transactions
            } else if str_eq(v.as_str(), "transfer") {
                Op::Transfers
            } else {
                Op::Info
            }
        }
        None => Op::Info,
    }
}

/// The credits routing table.
pub open spec fn credits_path(op: Op, p: Param) -> Option<Seq<char>> {
    match op {
        Op::Get => Some("/credits/"@),
        Op::Info => Some("/credits/"@),
        Op::Incomes => Some("/credits/incomes/"@),
        Op::Expenses => Some("/credits/expenses/"@),
        Op::Transfers => Some("/credits/transfers/"@),
        Op::Transactions => Some("/credits/transactions/"@),
        Op::Members => Some("/credits/members/"@),
        Op::Claim => Some("/credits/members/claim/"@),
        _ => None,
    }
}

impl Credits {
    /// The relative URL for the requested operation on credits.
    pub fn set_url(op: Op, _p: Param) -> (r: Result<String, APIError>)
        ensures
            match credits_path(op, _p) {
                Some(s) => r matches Ok(u) && u@ == s,
                None => r matches Err(e) && is_invalid_operation_error(e),
            },
    {
        match op {
            Op::Get => Ok("/credits/".to_owned()),
            Op::Info => Ok("/credits/".to_owned()),
            Op::Incomes => Ok("/credits/incomes/".to_owned()),
            Op::Expenses => Ok("/credits/expenses/".to_owned()),
            Op::Transfers => Ok("/credits/transfers/".to_owned()),
            Op::Transactions => Ok("/credits/transactions/".to_owned()),
            Op::Members => Ok("/credits/members/".to_owned()),
            Op::Claim => Ok("/credits/members/claim/".to_owned()),
            _ => Err(invalid_operation()),
        }
    }
}

} // verus!

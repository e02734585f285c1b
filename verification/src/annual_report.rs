//! Annual reports and the metadata of their credits.

use vstd::prelude::*;
use crate::primitives::{Balance, FileId, Moment};
use crate::required_signers::{RequiredSigner, RequiredSigners};

verus! {

/// The state of an annual report: one bit for the signature that is due.
pub type AnnualReportStateMask = u16;

/// The owner of the project has not submitted the report.
pub const REPORT_PROJECT_OWNER_SIGN_PENDING: AnnualReportStateMask = 1;

/// The report waits for the auditor.
pub const REPORT_AUDITOR_SIGN_PENDING: AnnualReportStateMask = 2;

/// The report waits for the standard.
pub const REPORT_STANDARD_SIGN_PENDING: AnnualReportStateMask = 4;

/// The report waits for an investor. No standard uses this state.
pub const REPORT_INVESTOR_SIGN_PENDING: AnnualReportStateMask = 8;

/// The report waits for the registry.
pub const REPORT_REGISTRY_SIGN_PENDING: AnnualReportStateMask = 16;

/// The report has all signatures.
pub const REPORT_ISSUED: AnnualReportStateMask = 32;

/// A copy of `bytes`.
pub fn clone_bytes(bytes: &Vec<u8>) -> (copy: Vec<u8>)
    ensures
        copy@ == bytes@,
{
    let copy = bytes.clone();
    assert(copy@ =~= bytes@);
    copy
}

/// Name, symbol and decimals of the asset that the credits of a report become.
#[derive(Debug)]
pub struct CarbonCreditsMeta {
    pub name: Vec<u8>,
    pub symbol: Vec<u8>,
    pub decimals: u8,
}

/// The mathematical value of a `CarbonCreditsMeta`.
pub struct CarbonCreditsMetaView {
    pub name: Seq<u8>,
    pub symbol: Seq<u8>,
    pub decimals: u8,
}

impl CarbonCreditsMetaView {
    /// Metadata are valid when neither the name nor the symbol is empty.
    pub open spec fn is_valid(self) -> bool {
        self.name.len() > 0 && self.symbol.len() > 0
    }

    /// The metadata that `default` gives: nothing.
    pub open spec fn empty() -> CarbonCreditsMetaView {
        CarbonCreditsMetaView { name: Seq::empty(), symbol: Seq::empty(), decimals: 0 }
    }
}

impl View for CarbonCreditsMeta {
    type V = CarbonCreditsMetaView;

    open spec fn view(&self) -> CarbonCreditsMetaView {
        CarbonCreditsMetaView { name: self.name@, symbol: self.symbol@, decimals: self.decimals }
    }
}

impl CarbonCreditsMeta {
    /// Metadata with the given name, symbol and decimals.
    pub fn new(name: Vec<u8>, symbol: Vec<u8>, decimals: u8) -> (meta: Self)
        ensures
            meta@ == (CarbonCreditsMetaView { name: name@, symbol: symbol@, decimals }),
    {
        CarbonCreditsMeta { name, symbol, decimals }
    }

    /// Whether neither the name nor the symbol is empty.
    pub fn is_metadata_valid(&self) -> (valid: bool)
        ensures
            valid == self@.is_valid(),
    {
        !self.name.is_empty() && !self.symbol.is_empty()
    }

    /// Replaces name, symbol and decimals.
    pub fn set_metadata(&mut self, name: Vec<u8>, symbol: Vec<u8>, decimals: u8)
        ensures
            final(self)@ == (CarbonCreditsMetaView { name: name@, symbol: symbol@, decimals }),
    {
        self.name = name;
        self.symbol = symbol;
        self.decimals = decimals;
    }
}

impl Default for CarbonCreditsMeta {
    fn default() -> (meta: Self)
        ensures
            meta@ == CarbonCreditsMetaView::empty(),
    {
        CarbonCreditsMeta { name: Vec::new(), symbol: Vec::new(), decimals: 0 }
    }
}

impl Clone for CarbonCreditsMeta {
    fn clone(&self) -> (copy: Self)
        ensures
            copy@ == self@,
    {
        CarbonCreditsMeta {
            name: clone_bytes(&self.name),
            symbol: clone_bytes(&self.symbol),
            decimals: self.decimals,
        }
    }
}

/// One annual report of a project: a document, the number of credits it claims,
/// and how far the signing has come.
#[derive(Debug)]
pub struct AnnualReportStructT {
    pub file_id: FileId,
    pub state: AnnualReportStateMask,
    pub carbon_credits_meta: CarbonCreditsMeta,
    pub create_time: Moment,
    pub carbon_credits_count: Balance,
    pub carbon_credits_released: bool,
    pub required_signers: RequiredSigners,
}

/// An annual report, under the name that the projects use.
pub type AnnualReportStruct = AnnualReportStructT;

/// The mathematical value of an annual report.
pub struct AnnualReportView {
    pub file_id: FileId,
    pub state: AnnualReportStateMask,
    pub carbon_credits_meta: CarbonCreditsMetaView,
    pub create_time: Moment,
    pub carbon_credits_count: Balance,
    pub carbon_credits_released: bool,
    pub required_signers: Set<RequiredSigner>,
}

impl AnnualReportView {
    /// The report that `new` makes.
    pub open spec fn new(
        file_id: FileId,
        carbon_credits_count: Balance,
        create_time: Moment,
        carbon_credits_meta: CarbonCreditsMetaView,
    ) -> AnnualReportView {
        AnnualReportView {
            file_id,
            state: REPORT_PROJECT_OWNER_SIGN_PENDING,
            carbon_credits_meta,
            create_time,
            carbon_credits_count,
            carbon_credits_released: false,
            required_signers: Set::empty(),
        }
    }

    /// How many signatures a report in `state` has: its place in the order of the
    /// states. States outside the order have none.
    pub open spec fn rank(state: AnnualReportStateMask) -> nat {
        if state == REPORT_AUDITOR_SIGN_PENDING {
            1
        } else if state == REPORT_STANDARD_SIGN_PENDING {
            2
        } else if state == REPORT_REGISTRY_SIGN_PENDING {
            3
        } else if state == REPORT_ISSUED {
            4
        } else {
            0
        }
    }

    /// Whether the report has all signatures.
    pub open spec fn is_full_signed(self) -> bool {
        self.state == REPORT_ISSUED
    }
}

impl View for AnnualReportStructT {
    type V = AnnualReportView;

    open spec fn view(&self) -> AnnualReportView {
        AnnualReportView {
            file_id: self.file_id,
            state: self.state,
            carbon_credits_meta: self.carbon_credits_meta@,
            create_time: self.create_time,
            carbon_credits_count: self.carbon_credits_count,
            carbon_credits_released: self.carbon_credits_released,
            required_signers: self.required_signers@,
        }
    }
}

impl AnnualReportStructT {
    /// A report on the document `file_id` that claims `carbon_credits_count` credits: nobody has
    /// signed it, it asks for no signers yet, and its credits are not released.
    pub fn new(
        file_id: FileId,
        carbon_credits_count: Balance,
        create_time: Moment,
        carbon_credits_meta: CarbonCreditsMeta,
    ) -> (report: Self)
        ensures
            report@ == AnnualReportView::new(
                file_id,
                carbon_credits_count,
                create_time,
                carbon_credits_meta@,
            ),
    {
        AnnualReportStructT {
            file_id,
            state: REPORT_PROJECT_OWNER_SIGN_PENDING,
            carbon_credits_meta,
            required_signers: RequiredSigners::new(),
            create_time,
            carbon_credits_count,
            carbon_credits_released: false,
        }
    }

    /// Whether the credits of the report were released.
    pub fn is_carbon_credits_released(&self) -> (released: bool)
        ensures
            released == self@.carbon_credits_released,
    {
        self.carbon_credits_released
    }

    /// Marks the credits of the report as released.
    pub fn set_carbon_credits_released(&mut self)
        ensures
            final(self)@ == (AnnualReportView { carbon_credits_released: true, ..old(self)@ }),
    {
        self.carbon_credits_released = true;
    }

    /// The number of credits that the report claims.
    pub fn carbon_credits_count(&self) -> (count: Balance)
        ensures
            count == self@.carbon_credits_count,
    {
        self.carbon_credits_count
    }

    /// The time at which the report was created.
    pub fn create_time(&self) -> (time: Moment)
        ensures
            time == self@.create_time,
    {
        self.create_time
    }

    /// Sets the number of credits, as long as nobody has signed the report.
    pub fn change_carbon_credits_count(&mut self, new_count: Balance)
        ensures
            final(self)@ == if old(self)@.state == REPORT_PROJECT_OWNER_SIGN_PENDING {
                AnnualReportView { carbon_credits_count: new_count, ..old(self)@ }
            } else {
                old(self)@
            },
    {
        if self.state == REPORT_PROJECT_OWNER_SIGN_PENDING {
            self.carbon_credits_count = new_count;
        }
    }

    /// Replaces the metadata of the credits.
    pub fn set_metadata(&mut self, name: Vec<u8>, symbol: Vec<u8>, decimals: u8)
        ensures
            final(self)@ == (AnnualReportView {
                carbon_credits_meta: CarbonCreditsMetaView { name: name@, symbol: symbol@, decimals },
                ..old(self)@
            }),
    {
        self.carbon_credits_meta.set_metadata(name, symbol, decimals);
    }

    /// Whether the report has all signatures.
    pub fn is_full_signed(&self) -> (full: bool)
        ensures
            full == self@.is_full_signed(),
    {
        self.state == REPORT_ISSUED
    }

    /// Adds `signer` to the required signers, unless it is one already.
    pub fn assign_required_signer(&mut self, signer: RequiredSigner)
        ensures
            final(self)@ == (AnnualReportView {
                required_signers: old(self)@.required_signers.insert(signer),
                ..old(self)@
            }),
    {
        self.required_signers.assign(signer);
    }

    /// Takes `signer` from the required signers, if it is one.
    pub fn remove_required_signer(&mut self, signer: RequiredSigner)
        ensures
            final(self)@ == (AnnualReportView {
                required_signers: old(self)@.required_signers.remove(signer),
                ..old(self)@
            }),
    {
        self.required_signers.remove(signer);
    }

    /// Whether `signer` is a required signer.
    pub fn is_required_signer(&self, signer: RequiredSigner) -> (required: bool)
        ensures
            required == self@.required_signers.contains(signer),
    {
        self.required_signers.contains(signer)
    }
}

impl Clone for AnnualReportStructT {
    fn clone(&self) -> (copy: Self)
        ensures
            copy@ == self@,
    {
        AnnualReportStructT {
            file_id: self.file_id,
            state: self.state,
            carbon_credits_meta: self.carbon_credits_meta.clone(),
            create_time: self.create_time,
            carbon_credits_count: self.carbon_credits_count,
            carbon_credits_released: self.carbon_credits_released,
            required_signers: self.required_signers.clone(),
        }
    }
}

} // verus!

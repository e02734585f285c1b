//! The calls that the registry asks its caller to make on the signing service and on the asset
//! ledger.

use vstd::prelude::*;
use crate::file_hash::H256;
use crate::primitives::{AccountId, AssetId, Balance, FileId};

verus! {

/// A call on the signing service, to be made in the name of the account that
/// asked for the operation.
#[derive(Debug)]
pub enum FileCall {
    /// Create the document `file_id` with a first version.
    CreateNewFile { tag: Vec<u8>, filehash: H256, file_id: FileId },
    /// Let `signer` sign the document.
    AssignSigner { file_id: FileId, signer: AccountId },
    /// Take `signer` from the signers of the document.
    DeleteSigner { file_id: FileId, signer: AccountId },
    /// Sign the latest version of the document.
    SignLatestVersion { file_id: FileId },
}

/// The mathematical value of a `FileCall`.
pub enum FileCallView {
    CreateNewFile { tag: Seq<u8>, filehash: H256, file_id: FileId },
    AssignSigner { file_id: FileId, signer: AccountId },
    DeleteSigner { file_id: FileId, signer: AccountId },
    SignLatestVersion { file_id: FileId },
}

impl View for FileCall {
    type V = FileCallView;

    open spec fn view(&self) -> FileCallView {
        match *self {
            FileCall::CreateNewFile { tag, filehash, file_id } => FileCallView::CreateNewFile {
                tag: tag@,
                filehash,
                file_id,
            },
            FileCall::AssignSigner { file_id, signer } => FileCallView::AssignSigner {
                file_id,
                signer,
            },
            FileCall::DeleteSigner { file_id, signer } => FileCallView::DeleteSigner {
                file_id,
                signer,
            },
            FileCall::SignLatestVersion { file_id } => FileCallView::SignLatestVersion { file_id },
        }
    }
}

/// A call on the asset ledger, to be made in the name of the account that asked
/// for the operation.
#[derive(Debug)]
pub enum AssetCall {
    /// Create the asset, administered by `admin`, with no zombie accounts.
    Create { asset_id: AssetId, admin: AccountId, max_zombies: u32, min_balance: Balance },
    /// Give the asset its name, symbol and decimals.
    SetMetadata { asset_id: AssetId, name: Vec<u8>, symbol: Vec<u8>, decimals: u8 },
    /// Mint `amount` units to `beneficiary`.
    Mint { asset_id: AssetId, beneficiary: AccountId, amount: Balance },
    /// Move `amount` units from the caller to `target`.
    Transfer { asset_id: AssetId, target: AccountId, amount: Balance },
    /// Burn `amount` units of the caller.
    BurnSelfAssets { asset_id: AssetId, amount: Balance },
    /// Destroy the asset.
    Destroy { asset_id: AssetId, zombies_witness: u32 },
}

/// The mathematical value of an `AssetCall`.
pub enum AssetCallView {
    Create { asset_id: AssetId, admin: AccountId, max_zombies: u32, min_balance: Balance },
    SetMetadata { asset_id: AssetId, name: Seq<u8>, symbol: Seq<u8>, decimals: u8 },
    Mint { asset_id: AssetId, beneficiary: AccountId, amount: Balance },
    Transfer { asset_id: AssetId, target: AccountId, amount: Balance },
    BurnSelfAssets { asset_id: AssetId, amount: Balance },
    Destroy { asset_id: AssetId, zombies_witness: u32 },
}

impl View for AssetCall {
    type V = AssetCallView;

    open spec fn view(&self) -> AssetCallView {
        match *self {
            AssetCall::Create { asset_id, admin, max_zombies, min_balance } => AssetCallView::Create {
                asset_id,
                admin,
                max_zombies,
                min_balance,
            },
            AssetCall::SetMetadata { asset_id, name, symbol, decimals } => AssetCallView::SetMetadata {
                asset_id,
                name: name@,
                symbol: symbol@,
                decimals,
            },
            AssetCall::Mint { asset_id, beneficiary, amount } => AssetCallView::Mint {
                asset_id,
                beneficiary,
                amount,
            },
            AssetCall::Transfer { asset_id, target, amount } => AssetCallView::Transfer {
                asset_id,
                target,
                amount,
            },
            AssetCall::BurnSelfAssets { asset_id, amount } => AssetCallView::BurnSelfAssets {
                asset_id,
                amount,
            },
            AssetCall::Destroy { asset_id, zombies_witness } => AssetCallView::Destroy {
                asset_id,
                zombies_witness,
            },
        }
    }
}

/// The calls on the asset ledger that release the credits of a report, in the
/// order in which they are made. The release ends with the first call that the
/// ledger refuses; where that is not the creation, `destroy` follows.
#[derive(Debug)]
pub struct ReleasePlan {
    pub create: AssetCall,
    pub set_metadata: AssetCall,
    pub mint: AssetCall,
    pub destroy: AssetCall,
}

/// The mathematical value of a `ReleasePlan`.
pub struct ReleasePlanView {
    pub create: AssetCallView,
    pub set_metadata: AssetCallView,
    pub mint: AssetCallView,
    pub destroy: AssetCallView,
}

impl View for ReleasePlan {
    type V = ReleasePlanView;

    open spec fn view(&self) -> ReleasePlanView {
        ReleasePlanView {
            create: self.create@,
            set_metadata: self.set_metadata@,
            mint: self.mint@,
            destroy: self.destroy@,
        }
    }
}

/// How far the calls of a `ReleasePlan` came.
#[derive(Clone, Copy, Debug, PartialEq, Eq, Structural)]
pub enum ReleaseOutcome {
    /// The ledger did not create the asset.
    AssetNotCreated,
    /// The ledger created the asset and refused its metadata.
    MetadataNotSet,
    /// The ledger created the asset, took its metadata and did not mint.
    CreditsNotMinted,
    /// The ledger took all three calls.
    Minted,
}

} // verus!

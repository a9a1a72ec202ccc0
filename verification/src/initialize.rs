use vstd::prelude::*;

use crate::error::IcoError;
use crate::instructions::InitializeIco;
use crate::mint::declared_decimals;
use crate::mint::is_initialized_mint;
use crate::mint::mint_decimals;
use crate::mint::MINT_DECIMALS_AT;
use crate::pricing::pow10;
use crate::pricing::token_units;
use crate::pricing::tokens_for;
use crate::state::IcoState;
use crate::state::IcoStatus;
use crate::transfer::Asset;
use crate::transfer::Holder;
use crate::transfer::Transfer;

verus! {

/// The token base units that a campaign puts up for sale, or why it cannot
/// be created.  The conditions are tried in this order: the caps, the mint
/// record, the size of the supply, the price.
pub open spec fn tokens_for_sale(mint_data: Seq<u8>, price: u64, soft_cap: u64, hard_cap: u64)
    -> Result<u64, IcoError> {
    if soft_cap >= hard_cap {
        Err(IcoError::InvalidCapRange)
    } else {
        match declared_decimals(mint_data) {
            Err(e) => Err(e),
            Ok(decimals) => token_units(hard_cap, decimals, price),
        }
    }
}

/// The campaign as it is created: nothing contributed, active, claims not
/// yet unlocked.
pub open spec fn new_campaign(
    ctx: InitializeIco,
    price: u64,
    start_date: i64,
    end_date: i64,
    soft_cap: u64,
    hard_cap: u64,
    token_amount: u64,
) -> IcoState {
    IcoState {
        authority: ctx.authority,
        token_mint: ctx.token_mint,
        vault: ctx.vault,
        token_price: price,
        total_contributed: 0,
        start_date,
        end_date,
        token_amount,
        soft_cap,
        hard_cap,
        claim_allowed: false,
        status: IcoStatus::Active,
    }
}

/// The transfer that the creation of a campaign asks for: the tokens on
/// sale, from the authority into the vault.
pub open spec fn supply_transfer(ctx: InitializeIco, token_amount: u64) -> Transfer {
    Transfer {
        asset: Asset::Token,
        from: Holder::Wallet(ctx.authority),
        to: Holder::Vault(ctx.vault),
        amount: token_amount,
    }
}

/// What the creation of a campaign comes to: the campaign and the transfer
/// of its supply into the vault, or the reason of the refusal.
pub open spec fn initialize_outcome(
    ctx: InitializeIco,
    price: u64,
    start_date: i64,
    end_date: i64,
    soft_cap: u64,
    hard_cap: u64,
) -> Result<(IcoState, Transfer), IcoError> {
    match tokens_for_sale(ctx.mint_data@, price, soft_cap, hard_cap) {
        Err(e) => Err(e),
        Ok(token_amount) => Ok(
            (
                new_campaign(ctx, price, start_date, end_date, soft_cap, hard_cap, token_amount),
                supply_transfer(ctx, token_amount),
            ),
        ),
    }
}

/// Creates a campaign that sells the token of `ctx` at `token_price_lamports`
/// per whole token.
///
/// The campaign is created exactly when the soft cap lies below the hard
/// cap, the mint record is that of an initialized mint, `hard_cap *
/// 10^decimals` is within the range of the amounts and the price is not
/// zero.  It then puts `hard_cap * 10^decimals / token_price_lamports` token
/// base units up for sale, rounded down, and asks for their transfer into
/// the vault.  Otherwise the reason is returned and no record exists.
pub fn initialize_ico(
    ctx: &InitializeIco,
    token_price_lamports: u64,
    start_date: i64,
    end_date: i64,
    soft_cap: u64,
    hard_cap: u64,
) -> (r: Result<(IcoState, Transfer), IcoError>)
    ensures
        r == initialize_outcome(
            *ctx,
            token_price_lamports,
            start_date,
            end_date,
            soft_cap,
            hard_cap,
        ),
        soft_cap >= hard_cap ==> r == Err::<(IcoState, Transfer), IcoError>(
            IcoError::InvalidCapRange,
        ),
        r is Ok <==> ({
            &&& soft_cap < hard_cap
            &&& is_initialized_mint(ctx.mint_data@)
            &&& hard_cap * pow10(ctx.mint_data@[MINT_DECIMALS_AT as int] as nat) <= u64::MAX
            &&& token_price_lamports > 0
        }),
        r matches Ok((ico_state, transfer)) ==> ({
            &&& ico_state.token_amount == hard_cap * pow10(
                ctx.mint_data@[MINT_DECIMALS_AT as int] as nat,
            ) / (token_price_lamports as int)
            &&& transfer.amount == ico_state.token_amount
            &&& ico_state.well_formed()
        }),
{
    if soft_cap >= hard_cap {
        return Err(IcoError::InvalidCapRange);
    }
    let decimals: u8 = match mint_decimals(ctx.mint_data.as_slice()) {
        Ok(decimals) => decimals,
        Err(e) => {
            return Err(e);
        },
    };
    let token_amount: u64 = match tokens_for(hard_cap, decimals, token_price_lamports) {
        Ok(units) => units,
        Err(e) => {
            return Err(e);
        },
    };
    let ico_state = IcoState {
        authority: ctx.authority,
        token_mint: ctx.token_mint,
        vault: ctx.vault,
        token_price: token_price_lamports,
        total_contributed: 0,
        start_date,
        end_date,
        token_amount,
        soft_cap,
        hard_cap,
        claim_allowed: false,
        status: IcoStatus::Active,
    };
    let transfer = Transfer {
        asset: Asset::Token,
        from: Holder::Wallet(ctx.authority),
        to: Holder::Vault(ctx.vault),
        amount: token_amount,
    };
    Ok((ico_state, transfer))
}

} // verus!

use vstd::prelude::*;

verus! {

/// Amount owed to the offer owner when a transfer of `energy_to_transfer`
/// units at `offered_tariff` ends after `used_units` units were delivered.
pub open spec fn owner_payout(
    collateral: nat,
    offered_tariff: nat,
    energy_to_transfer: nat,
    used_units: nat,
) -> nat {
    if used_units >= energy_to_transfer {
        collateral
    } else {
        offered_tariff * used_units
    }
}

/// Amount handed back to the driver in the same situation.
pub open spec fn driver_refund(
    collateral: nat,
    offered_tariff: nat,
    energy_to_transfer: nat,
    used_units: nat,
) -> int {
    collateral - owner_payout(collateral, offered_tariff, energy_to_transfer, used_units)
}

/// Splits the escrowed collateral between the offer owner and the driver.
pub fn settle(collateral: u64, offered_tariff: u64, energy_to_transfer: u64, used_units: u64) -> (r: (u64, u64))
    requires
        collateral == offered_tariff * energy_to_transfer,
    ensures
        r.0 == owner_payout(collateral as nat, offered_tariff as nat, energy_to_transfer as nat, used_units as nat),
        r.1 == driver_refund(collateral as nat, offered_tariff as nat, energy_to_transfer as nat, used_units as nat),
        used_units < energy_to_transfer ==> r.0 == offered_tariff * used_units && r.0 + r.1 == collateral,
        used_units >= energy_to_transfer ==> r.0 == collateral && r.1 == 0,
{
    if used_units >= energy_to_transfer {
        (collateral, 0)
    } else {
        proof {
            assert(offered_tariff * used_units <= offered_tariff * energy_to_transfer) by (nonlinear_arith)
                requires used_units < energy_to_transfer;
        }
        let to_owner = offered_tariff * used_units;
        (to_owner, collateral - to_owner)
    }
}

/// Settlement never creates or loses value: below the reserved quantity the
/// owner's payout and the driver's refund add up to the collateral; at or above
/// it the owner receives the whole collateral and the driver nothing.
pub proof fn lemma_settlement_exact(collateral: nat, offered_tariff: nat, energy_to_transfer: nat, used_units: nat)
    requires
        collateral == offered_tariff * energy_to_transfer,
    ensures
        used_units < energy_to_transfer ==> owner_payout(collateral, offered_tariff, energy_to_transfer, used_units)
            + driver_refund(collateral, offered_tariff, energy_to_transfer, used_units) == collateral
            && 0 <= driver_refund(collateral, offered_tariff, energy_to_transfer, used_units),
        used_units >= energy_to_transfer ==> owner_payout(collateral, offered_tariff, energy_to_transfer, used_units)
            == collateral && driver_refund(collateral, offered_tariff, energy_to_transfer, used_units) == 0,
{
    if used_units < energy_to_transfer {
        assert(offered_tariff * used_units <= offered_tariff * energy_to_transfer) by (nonlinear_arith)
            requires used_units < energy_to_transfer;
    }
}

} // verus!

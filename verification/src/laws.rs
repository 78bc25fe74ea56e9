//! What holds of the transitions whatever they are handed.

use crate::account::{token_balance, Account};
use crate::action::{Action, Authority};
use crate::address::{
    answers, escrow_address, Address, SYSTEM_PROGRAM_ID, TOKEN_PROGRAM_ID,
};
use crate::error::ProgramError;
use crate::helper::AssociatedTokenAccount;
use crate::host::{carried_out, resized, vacant, with_balance, zeroed, Ledger, Slot};
use crate::instruction::make_offer::{Make, MakeInstructionData};
use crate::instruction::refund::{Refund, RefundAccounts};
use crate::state::{Escrow, CLOSED_LEN, TOMBSTONE};
use vstd::bytes::{lemma_auto_spec_u64_to_from_le_bytes, spec_u64_from_le_bytes};
use vstd::prelude::*;

verus! {

/// Derivation is stable: whenever the host answers twice for the same seeds
/// under the same program, it gives the same address and the same bump.
pub proof fn law_derivation_is_stable(
    expected: (Seq<u8>, u8),
    first: Option<(Address, u8)>,
    second: Option<(Address, u8)>,
)
    requires
        answers(first, expected),
        answers(second, expected),
        first is Some,
        second is Some,
    ensures
        first == second,
{
    assert(first->Some_0.0 =~= second->Some_0.0);
}

/// Make refuses a payload that is not 24 bytes long and one that deposits
/// nothing, whatever the accounts and the derived address are.
pub proof fn law_make_refuses_malformed_payload(
    program_id: Address,
    data: Seq<u8>,
    accounts: Seq<Account>,
    derived: Option<(Address, u8)>,
    vault: Option<(Address, u8)>,
)
    requires
        data.len() != 24 || spec_u64_from_le_bytes(data.subrange(16, 24)) == 0,
    ensures
        MakeInstructionData::parsed(data) == Err::<MakeInstructionData, ProgramError>(
            ProgramError::InvalidInstructionData,
        ),
        Make::assembled(program_id, data, accounts, derived, vault) is Err,
{
}

/// Make refuses a mint that the token program does not own or whose data
/// does not have a mint's length, be it the first mint or the second.
pub proof fn law_make_refuses_forged_mint(
    program_id: Address,
    data: Seq<u8>,
    accounts: Seq<Account>,
    derived: Option<(Address, u8)>,
    vault: Option<(Address, u8)>,
)
    requires
        !accounts[2].is_mint() || !accounts[3].is_mint(),
    ensures
        Make::assembled(program_id, data, accounts, derived, vault) is Err,
{
}

/// After a Make that stood, the record that is written names a maker, a nonce
/// and a bump from which the escrow's own address derives again: the record is
/// written at the address of the escrow slot, that address is the derived one,
/// and the stored bump is the derived bump. The capability that signs for the
/// creation of the record is the one of that escrow.
pub proof fn law_made_record_rederives(
    program_id: Address,
    data: Seq<u8>,
    accounts: Seq<Account>,
    derived: Option<(Address, u8)>,
    vault: Option<(Address, u8)>,
)
    requires
        answers(
            derived,
            escrow_address(program_id, accounts[0].key, MakeInstructionData::seed_of(data)),
        ),
        Make::assembled(program_id, data, accounts, derived, vault) is Ok,
    ensures
        ({
            let make = Make::assembled(program_id, data, accounts, derived, vault)->Ok_0;
            let record = make.record();
            &&& make.deposit()[0] == Action::WriteRecord { account: accounts[1].key, record }
            &&& escrow_address(program_id, record.maker, record.seed) == (
                accounts[1].key@,
                record.bump,
            )
            &&& make.signer().signs_for(program_id, accounts[1].key)
            &&& make.creation(program_id)[0] matches Action::CreateAccount { to, signer, .. }
                && to == accounts[1].key && signer == make.signer()
        }),
{
}

/// After a Make that stood, exactly the amount that the payload names is
/// deposited, it is more than nothing, and it goes into the vault that was
/// created for the escrow just before.
pub proof fn law_make_deposits_the_amount(
    program_id: Address,
    data: Seq<u8>,
    accounts: Seq<Account>,
    derived: Option<(Address, u8)>,
    vault: Option<(Address, u8)>,
)
    requires
        Make::assembled(program_id, data, accounts, derived, vault) is Ok,
    ensures
        ({
            let make = Make::assembled(program_id, data, accounts, derived, vault)->Ok_0;
            let amount = spec_u64_from_le_bytes(data.subrange(16, 24));
            &&& amount > 0
            &&& make.creation(program_id)[1] matches Action::CreateAssociatedTokenAccount {
                account,
                wallet,
                mint,
                ..
            } && account == accounts[5].key && wallet == accounts[1].key && mint
                == accounts[2].key
            &&& make.deposit()[1] == Action::Transfer {
                from: accounts[4].key,
                to: accounts[5].key,
                authority: Authority::Wallet { address: accounts[0].key },
                amount,
            }
        }),
{
}

/// Refund refuses an escrow whose address is not the one derived from the
/// maker at hand and the nonce of the record. So no one but the maker whose
/// address went into the escrow's address passes as its maker, signer or not.
pub proof fn law_refund_refuses_foreign_escrow(
    program_id: Address,
    accounts: Seq<Account>,
    escrow: (Address, u8),
    vault: Option<(Address, u8)>,
    holding: Option<(Address, u8)>,
)
    requires
        accounts[1].key != escrow.0,
    ensures
        RefundAccounts::rejection(program_id, accounts, Some(escrow), vault) is Some,
        RefundAccounts::early_rejection(program_id, accounts) is None
            ==> RefundAccounts::rejection(program_id, accounts, Some(escrow), vault) == Some(
            ProgramError::InvalidAccountData,
        ),
        Refund::assembled(program_id, accounts, Some(escrow), vault, holding) is Err,
{
}

/// A Refund that stood can always be carried through: nothing is left to be
/// refused once the first action has been handed out.
pub proof fn law_validated_refund_has_a_teardown(
    program_id: Address,
    accounts: Seq<Account>,
    escrow: Option<(Address, u8)>,
    vault: Option<(Address, u8)>,
    holding: Option<(Address, u8)>,
)
    requires
        Refund::assembled(program_id, accounts, escrow, vault, holding) is Ok,
    ensures
        Refund::assembled(program_id, accounts, escrow, vault, holding)->Ok_0.0.teardown() is Ok,
{
}

/// Refund moves the whole balance of the vault, whatever it is, to the
/// maker's holding account, and does so on the escrow's authority, never on
/// the maker's.
pub proof fn law_refund_empties_the_vault(refund: Refund)
    requires
        refund.teardown() is Ok,
    ensures
        refund.teardown()->Ok_0[0] == (Action::Transfer {
            from: refund.accounts.vault.key,
            to: refund.accounts.maker_ata_a.key,
            authority: refund.authority(),
            amount: token_balance(refund.accounts.vault.data@),
        }),
        refund.authority() is Escrow,
{
}

/// Refund closes the vault in the maker's favour once it is empty, and only
/// then touches the record: the tombstone is written before the record's
/// balance is reclaimed and before its storage shrinks to the single byte that
/// holds the tombstone; the release comes last.
pub proof fn law_refund_tears_down_in_order(refund: Refund)
    requires
        refund.teardown() is Ok,
    ensures
        ({
            let actions = refund.teardown()->Ok_0;
            let escrow = refund.accounts.escrow.key;
            &&& actions.len() == 6
            &&& actions[0] is Transfer
            &&& actions[1] == Action::CloseAccount {
                account: refund.accounts.vault.key,
                destination: refund.accounts.maker.key,
                authority: refund.authority(),
            }
            &&& actions[2] == Action::Tombstone { account: escrow }
            &&& actions[3] == Action::ReclaimLamports {
                from: escrow,
                to: refund.accounts.maker.key,
            }
            &&& actions[4] == Action::Resize { account: escrow, new_len: CLOSED_LEN }
            &&& actions[5] == Action::Close { account: escrow }
        }),
{
}

/// Making sure of a holding account that already is one asks for nothing, so
/// that doing it again finds the same account and again asks for nothing.
pub proof fn law_ensure_is_idempotent(
    account: Account,
    mint: Account,
    payer: Account,
    owner: Account,
    system_program: Account,
    token_program: Account,
    derived: Option<(Address, u8)>,
)
    requires
        AssociatedTokenAccount::checked(account, derived) is Ok,
    ensures
        AssociatedTokenAccount::ensured(
            account,
            mint,
            payer,
            owner,
            system_program,
            token_program,
            derived,
        ) == Ok::<Seq<Action>, ProgramError>(Seq::empty()),
{
}

/// Decoding is the inverse of encoding: the only record that data of a
/// record's length can be loaded as is the one that was encoded into it.
pub proof fn law_record_round_trip(written: Escrow, loaded: Escrow)
    requires
        loaded.encoding() == written.encoding(),
    ensures
        loaded == written,
        written.encoding().len() == Escrow::LEN,
{
    crate::state::lemma_encoding_injective(loaded, written);
    crate::state::lemma_encoding_len(written);
}

/// Once the host has carried out everything that a Make that stood asks for,
/// the escrow is active: the program owns the record's storage, which holds
/// exactly the record; the vault is a token-holding account for the first
/// mint that belongs to the escrow; and the vault's balance is the amount
/// that the payload named.
pub proof fn law_make_activates_the_escrow(
    program_id: Address,
    data: Seq<u8>,
    accounts: Seq<Account>,
    derived: Option<(Address, u8)>,
    vault: Option<(Address, u8)>,
    states: Seq<Ledger>,
)
    requires
        Make::assembled(program_id, data, accounts, derived, vault) is Ok,
        carried_out(
            states,
            Make::assembled(program_id, data, accounts, derived, vault)->Ok_0.creation(program_id)
                + Make::assembled(program_id, data, accounts, derived, vault)->Ok_0.deposit(),
        ),
    ensures
        ({
            let make = Make::assembled(program_id, data, accounts, derived, vault)->Ok_0;
            let escrow = accounts[1].key;
            let vault = accounts[5].key;
            let last = states[4];
            &&& last.at(escrow).owner == program_id
            &&& last.at(escrow).data == make.record().encoding()
            &&& last.holds_tokens(vault)
            &&& last.at(vault).data.subrange(0, 32) == accounts[2].key@
            &&& last.at(vault).data.subrange(32, 64) == escrow@
            &&& last.balance(vault) == make.instruction_data.amount
            &&& last.balance(vault) == spec_u64_from_le_bytes(data.subrange(16, 24))
        }),
{
    let make = Make::assembled(program_id, data, accounts, derived, vault)->Ok_0;
    let actions = make.creation(program_id) + make.deposit();
    assert(actions.len() == 4);
    assert(actions[0] == make.creation(program_id)[0]);
    assert(actions[1] == make.creation(program_id)[1]);
    assert(actions[2] == make.deposit()[0]);
    assert(actions[3] == make.deposit()[1]);
    assert(states[0].becomes(actions[0], states[1]));
    assert(states[1].becomes(actions[1], states[2]));
    assert(states[2].becomes(actions[2], states[3]));
    assert(states[3].becomes(actions[3], states[4]));
    crate::state::lemma_encoding_len(make.record());
    let before = states[3].at(accounts[5].key).data;
    let after = states[4].at(accounts[5].key).data;
    assert(after.subrange(0, 32) =~= after.subrange(0, 64).subrange(0, 32));
    assert(before.subrange(0, 32) =~= before.subrange(0, 64).subrange(0, 32));
    assert(after.subrange(32, 64) =~= after.subrange(0, 64).subrange(32, 64));
    assert(before.subrange(32, 64) =~= before.subrange(0, 64).subrange(32, 64));
}

/// Once the host has carried out everything that a Refund asks for, the
/// escrow is gone and the maker has everything back. The accounts at hand must
/// be a true picture of the host when it starts.
///
/// The first action alone empties the vault into the maker's holding account,
/// whatever the vault held. At the end the vault no longer exists; the
/// record's storage had shrunk to the single tombstone byte before it was
/// released; and the maker's reserved balance has grown by the reserved
/// balances of the vault and of the record. Unless the vault was itself handed
/// in as the maker's holding account, that account still holds at the end what
/// it gained.
pub proof fn law_refund_returns_everything(refund: Refund, states: Seq<Ledger>)
    requires
        refund.teardown() is Ok,
        carried_out(states, refund.teardown()->Ok_0),
        states[0].shows(*refund.accounts.escrow),
        states[0].shows(*refund.accounts.vault),
    ensures
        ({
            let maker = refund.accounts.maker.key;
            let escrow = refund.accounts.escrow.key;
            let vault = refund.accounts.vault.key;
            let holding = refund.accounts.maker_ata_a.key;
            let balance = token_balance(refund.accounts.vault.data@);
            &&& states[1].balance(vault) == 0
            &&& states[1].balance(holding) == states[0].balance(holding) + balance
            &&& vault != holding ==> states[6].balance(holding) == states[0].balance(holding)
                + balance
            &&& states[6].at(vault) == vacant()
            &&& states[5].at(escrow).data == seq![TOMBSTONE]
            &&& states[6].at(escrow) == vacant()
            &&& states[6].at(maker).lamports == states[0].at(maker).lamports
                + refund.accounts.vault.lamports + refund.accounts.escrow.lamports
        }),
{
    let actions = refund.teardown()->Ok_0;
    assert(states[0].becomes(actions[0], states[1]));
    assert(states[1].becomes(actions[1], states[2]));
    assert(states[2].becomes(actions[2], states[3]));
    assert(states[3].becomes(actions[3], states[4]));
    assert(states[4].becomes(actions[4], states[5]));
    assert(states[5].becomes(actions[5], states[6]));
    let escrow = refund.accounts.escrow.key;
    assert(states[5].at(escrow).data =~= seq![TOMBSTONE]);
}

/// Once the host has created the holding account that was asked for, making
/// sure of it again finds it in order and asks for nothing.
pub proof fn law_ensure_settles(
    account: Account,
    mint: Account,
    payer: Account,
    owner: Account,
    system_program: Account,
    token_program: Account,
    derived: (Address, u8),
    before: Ledger,
    after: Ledger,
    seen: Account,
)
    requires
        derived.0 == account.key,
        before.becomes(
            AssociatedTokenAccount::creation(
                account,
                mint,
                payer,
                owner,
                system_program,
                token_program,
            ),
            after,
        ),
        seen.key == account.key,
        after.shows(seen),
    ensures
        AssociatedTokenAccount::checked(seen, Some(derived)) is Ok,
        AssociatedTokenAccount::ensured(
            seen,
            mint,
            payer,
            owner,
            system_program,
            token_program,
            Some(derived),
        ) == Ok::<Seq<Action>, ProgramError>(Seq::empty()),
{
}

/// Putting a balance into the data of a token-holding account changes the
/// balance it records to that balance and leaves it the account it was.
proof fn lemma_with_balance(slot: Slot, balance: u64)
    requires
        slot.data.len() == 165,
    ensures
        token_balance(with_balance(slot.data, balance)) == balance,
        crate::host::same_holding_account(
            slot,
            Slot { data: with_balance(slot.data, balance), ..slot },
        ),
        with_balance(slot.data, balance).len() == 165,
{
    lemma_auto_spec_u64_to_from_le_bytes();
    let data = with_balance(slot.data, balance);
    assert(data.subrange(64, 72) =~= vstd::bytes::spec_u64_to_le_bytes(balance));
    assert(data.subrange(0, 64) =~= slot.data.subrange(0, 64));
}

/// What the actions of a refund are taken to do does not contradict itself:
/// from every host of which the accounts at hand are a true picture, with the
/// four accounts at four different addresses and room in the maker's holding
/// account for the vault's balance, there are states through which the
/// teardown runs from beginning to end.
pub proof fn law_refund_can_be_carried_out(refund: Refund, start: Ledger) -> (states: Seq<Ledger>)
    requires
        refund.teardown() is Ok,
        start.shows(*refund.accounts.maker),
        start.shows(*refund.accounts.escrow),
        start.shows(*refund.accounts.vault),
        start.shows(*refund.accounts.maker_ata_a),
        refund.accounts.maker_ata_a.is_token_account(),
        refund.accounts.maker.key != refund.accounts.escrow.key,
        refund.accounts.maker.key != refund.accounts.vault.key,
        refund.accounts.maker.key != refund.accounts.maker_ata_a.key,
        refund.accounts.escrow.key != refund.accounts.maker_ata_a.key,
        refund.accounts.vault.key != refund.accounts.maker_ata_a.key,
        token_balance(refund.accounts.maker_ata_a.data@) + token_balance(
            refund.accounts.vault.data@,
        ) <= u64::MAX,
    ensures
        states[0] == start,
        carried_out(states, refund.teardown()->Ok_0),
{
    let maker = refund.accounts.maker.key;
    let escrow = refund.accounts.escrow.key;
    let vault = refund.accounts.vault.key;
    let holding = refund.accounts.maker_ata_a.key;
    let amount = token_balance(refund.accounts.vault.data@);
    let grown = (token_balance(refund.accounts.maker_ata_a.data@) + amount) as u64;
    let actions = refund.teardown()->Ok_0;
    lemma_with_balance(start.at(vault), 0);
    lemma_with_balance(start.at(holding), grown);
    let s1 = start.with(
        vault,
        Slot { data: with_balance(start.at(vault).data, 0), ..start.at(vault) },
    ).with(holding, Slot { data: with_balance(start.at(holding).data, grown), ..start.at(holding) });
    let s2 = s1.with(vault, vacant()).with(
        maker,
        Slot { lamports: s1.at(maker).lamports + s1.at(vault).lamports, ..s1.at(maker) },
    );
    let s3 = s2.with(
        escrow,
        Slot { data: s2.at(escrow).data.update(0, TOMBSTONE), ..s2.at(escrow) },
    );
    let s4 = s3.with(
        maker,
        Slot { lamports: s3.at(maker).lamports + s3.at(escrow).lamports, ..s3.at(maker) },
    );
    let s5 = s4.with(
        escrow,
        Slot { data: resized(s4.at(escrow).data, CLOSED_LEN as nat), ..s4.at(escrow) },
    );
    let s6 = s5.with(escrow, vacant());
    let states = seq![start, s1, s2, s3, s4, s5, s6];
    assert(start.becomes(actions[0], s1));
    assert(s1.becomes(actions[1], s2));
    assert(s2.becomes(actions[2], s3));
    assert(s3.becomes(actions[3], s4));
    assert(s4.becomes(actions[4], s5));
    assert(s5.becomes(actions[5], s6));
    states
}

/// What the actions of a Make are taken to do does not contradict itself:
/// from every host on which the escrow slot and the vault slot are vacant and
/// the maker's holding account holds at least the deposit, with the four
/// accounts at four different addresses, there are states through which the
/// creation and the deposit run from beginning to end.
pub proof fn law_make_can_be_carried_out(
    program_id: Address,
    data: Seq<u8>,
    accounts: Seq<Account>,
    derived: Option<(Address, u8)>,
    vault: Option<(Address, u8)>,
    start: Ledger,
) -> (states: Seq<Ledger>)
    requires
        Make::assembled(program_id, data, accounts, derived, vault) is Ok,
        start.at(accounts[1].key) == vacant(),
        start.at(accounts[5].key) == vacant(),
        start.shows(accounts[4]),
        accounts[4].is_token_account(),
        token_balance(accounts[4].data@) >= spec_u64_from_le_bytes(data.subrange(16, 24)),
        accounts[0].key != accounts[1].key,
        accounts[0].key != accounts[5].key,
        accounts[1].key != accounts[5].key,
        accounts[4].key != accounts[0].key,
        accounts[4].key != accounts[1].key,
        accounts[4].key != accounts[5].key,
    ensures
        states[0] == start,
        carried_out(
            states,
            Make::assembled(program_id, data, accounts, derived, vault)->Ok_0.creation(program_id)
                + Make::assembled(program_id, data, accounts, derived, vault)->Ok_0.deposit(),
        ),
{
    let make = Make::assembled(program_id, data, accounts, derived, vault)->Ok_0;
    let actions = make.creation(program_id) + make.deposit();
    let escrow = accounts[1].key;
    let vault = accounts[5].key;
    let holding = accounts[4].key;
    let amount = make.instruction_data.amount;
    let left = (token_balance(accounts[4].data@) - amount) as u64;
    lemma_auto_spec_u64_to_from_le_bytes();
    crate::state::lemma_encoding_len(make.record());
    let s1 = start.with(
        escrow,
        Slot { owner: program_id, lamports: 0, data: zeroed(Escrow::LEN as nat) },
    );
    let fresh = accounts[2].key@ + escrow@ + vstd::bytes::spec_u64_to_le_bytes(0) + zeroed(93);
    assert(fresh.subrange(64, 72) =~= vstd::bytes::spec_u64_to_le_bytes(0));
    assert(fresh.subrange(0, 32) =~= accounts[2].key@);
    assert(fresh.subrange(32, 64) =~= escrow@);
    let s2 = s1.with(vault, Slot { owner: TOKEN_PROGRAM_ID, lamports: 0, data: fresh });
    let s3 = s2.with(escrow, Slot { data: make.record().encoding(), ..s2.at(escrow) });
    lemma_with_balance(s3.at(holding), left);
    lemma_with_balance(s3.at(vault), amount);
    let s4 = s3.with(
        holding,
        Slot { data: with_balance(s3.at(holding).data, left), ..s3.at(holding) },
    ).with(vault, Slot { data: with_balance(s3.at(vault).data, amount), ..s3.at(vault) });
    let states = seq![start, s1, s2, s3, s4];
    assert(actions.len() == 4);
    assert(actions[0] == make.creation(program_id)[0]);
    assert(actions[1] == make.creation(program_id)[1]);
    assert(actions[2] == make.deposit()[0]);
    assert(actions[3] == make.deposit()[1]);
    assert(start.becomes(actions[0], s1));
    assert(s1.becomes(actions[1], s2));
    assert(s2.becomes(actions[2], s3));
    assert(s3.becomes(actions[3], s4));
    states
}

/// What Make brings into being, Refund takes back. Once the host has carried
/// out a Make that stood, the maker who signs again, with accounts that are a
/// true picture of the record and of the vault, with the same mint and with
/// the two services in their places, passes the validation of Refund under the
/// same derived address. The refund then moves exactly the deposit out of the
/// vault, and signs for it with the capability that signed for the creation
/// of the record.
pub proof fn law_made_escrow_is_refundable(
    program_id: Address,
    data: Seq<u8>,
    accounts: Seq<Account>,
    derived: Option<(Address, u8)>,
    vault: Option<(Address, u8)>,
    states: Seq<Ledger>,
    seen: Seq<Account>,
)
    requires
        Make::assembled(program_id, data, accounts, derived, vault) is Ok,
        carried_out(
            states,
            Make::assembled(program_id, data, accounts, derived, vault)->Ok_0.creation(program_id)
                + Make::assembled(program_id, data, accounts, derived, vault)->Ok_0.deposit(),
        ),
        seen.len() == 8,
        seen[0].key == accounts[0].key,
        seen[0].is_signer,
        seen[0].owner == SYSTEM_PROGRAM_ID,
        seen[1].key == accounts[1].key,
        states[4].shows(seen[1]),
        seen[2] == accounts[2],
        seen[3].key == accounts[5].key,
        states[4].shows(seen[3]),
        seen[5].key == SYSTEM_PROGRAM_ID,
        seen[6].key == TOKEN_PROGRAM_ID,
    ensures
        ({
            let make = Make::assembled(program_id, data, accounts, derived, vault)->Ok_0;
            let refund = Refund { accounts: RefundAccounts::by_role(seen) };
            &&& RefundAccounts::rejection(program_id, seen, derived, vault) is None
            &&& refund.signer() == make.signer()
            &&& refund.teardown() is Ok
            &&& refund.teardown()->Ok_0[0] == Action::Transfer {
                from: accounts[5].key,
                to: seen[4].key,
                authority: refund.authority(),
                amount: make.instruction_data.amount,
            }
        }),
{
    let make = Make::assembled(program_id, data, accounts, derived, vault)->Ok_0;
    law_make_activates_the_escrow(program_id, data, accounts, derived, vault, states);
    crate::state::lemma_encoding_names(make.record());
    crate::state::lemma_encoding_len(make.record());
}

/// Make is fixed by what it is handed. Two Makes that stand for the same
/// maker with the same nonce under the same program lie at the same escrow
/// address, keep the same bump and sign with the same seeds.
pub proof fn law_make_signs_with_the_same_seeds(
    program_id: Address,
    first_data: Seq<u8>,
    first_accounts: Seq<Account>,
    first_escrow: Option<(Address, u8)>,
    first_vault: Option<(Address, u8)>,
    second_data: Seq<u8>,
    second_accounts: Seq<Account>,
    second_escrow: Option<(Address, u8)>,
    second_vault: Option<(Address, u8)>,
)
    requires
        first_accounts[0].key == second_accounts[0].key,
        MakeInstructionData::seed_of(first_data) == MakeInstructionData::seed_of(second_data),
        answers(first_escrow, Make::escrow_slot_address(program_id, first_data, first_accounts)),
        answers(
            second_escrow,
            Make::escrow_slot_address(program_id, second_data, second_accounts),
        ),
        Make::assembled(program_id, first_data, first_accounts, first_escrow, first_vault) is Ok,
        Make::assembled(program_id, second_data, second_accounts, second_escrow, second_vault)
            is Ok,
    ensures
        ({
            let first = Make::assembled(
                program_id,
                first_data,
                first_accounts,
                first_escrow,
                first_vault,
            )->Ok_0;
            let second = Make::assembled(
                program_id,
                second_data,
                second_accounts,
                second_escrow,
                second_vault,
            )->Ok_0;
            &&& first_accounts[1].key == second_accounts[1].key
            &&& first.bump == second.bump
            &&& first.signer() == second.signer()
            &&& first.signer().seed_list() == second.signer().seed_list()
        }),
{
    assert(first_accounts[1].key =~= second_accounts[1].key);
}

/// Make refuses an escrow slot and a vault slot that do not lie at the
/// addresses derived for them.
pub proof fn law_make_refuses_foreign_slots(
    program_id: Address,
    data: Seq<u8>,
    accounts: Seq<Account>,
    escrow: (Address, u8),
    vault: (Address, u8),
)
    requires
        accounts[1].key != escrow.0 || accounts[5].key != vault.0,
    ensures
        Make::assembled(program_id, data, accounts, Some(escrow), Some(vault)) is Err,
        Make::early_rejection(program_id, data, accounts) is None ==> Make::assembled(
            program_id,
            data,
            accounts,
            Some(escrow),
            Some(vault),
        ) == Err::<Make, ProgramError>(ProgramError::InvalidAccountData),
{
}

/// Refund refuses a vault whose address is not the one derived from the
/// escrow, the token program and the mint: a holding account of the right
/// owner and length that lies elsewhere is not the vault.
pub proof fn law_refund_refuses_foreign_vault(
    program_id: Address,
    accounts: Seq<Account>,
    escrow: Option<(Address, u8)>,
    vault: (Address, u8),
    holding: Option<(Address, u8)>,
)
    requires
        accounts[3].key != vault.0,
    ensures
        RefundAccounts::rejection(program_id, accounts, escrow, Some(vault)) is Some,
        RefundAccounts::early_rejection(program_id, accounts) is None
            && RefundAccounts::middle_rejection(accounts, escrow) is None
            ==> RefundAccounts::rejection(program_id, accounts, escrow, Some(vault)) == Some(
            ProgramError::InvalidAccountData,
        ),
        Refund::assembled(program_id, accounts, escrow, Some(vault), holding) is Err,
{
}

/// Making sure twice of an account that already is the holding account asks
/// for nothing both times: whatever the host answers the first time and the
/// second, no creation is asked for, and where it answers at all the call
/// succeeds with nothing to do.
pub proof fn law_ensure_twice_asks_for_nothing(
    account: Account,
    mint: Account,
    payer: Account,
    owner: Account,
    system_program: Account,
    token_program: Account,
    expected: (Seq<u8>, u8),
    first: Option<(Address, u8)>,
    second: Option<(Address, u8)>,
)
    requires
        AssociatedTokenAccount::stands_at(account, expected),
        answers(first, expected),
        answers(second, expected),
    ensures
        ({
            let once = AssociatedTokenAccount::ensured(
                account,
                mint,
                payer,
                owner,
                system_program,
                token_program,
                first,
            );
            let again = AssociatedTokenAccount::ensured(
                account,
                mint,
                payer,
                owner,
                system_program,
                token_program,
                second,
            );
            &&& once == Ok::<Seq<Action>, ProgramError>(Seq::empty()) || once == Err::<
                Seq<Action>,
                ProgramError,
            >(ProgramError::InvalidSeeds)
            &&& again == Ok::<Seq<Action>, ProgramError>(Seq::empty()) || again == Err::<
                Seq<Action>,
                ProgramError,
            >(ProgramError::InvalidSeeds)
            &&& first is Some ==> once == Ok::<Seq<Action>, ProgramError>(Seq::empty())
            &&& second is Some ==> again == Ok::<Seq<Action>, ProgramError>(Seq::empty())
        }),
{
    if first is Some {
        assert(first->Some_0.0 =~= account.key);
    }
    if second is Some {
        assert(second->Some_0.0 =~= account.key);
    }
}

/// A signer who is not the maker cannot refund the maker's escrow. Where the
/// escrow lies at the address that belongs to its maker and the nonce of its
/// record, and the signer's own key with that nonce yields another address,
/// the Refund is refused whatever the host answers for the signer: as invalid
/// account data, or as `InvalidSeeds` where it gives no answer.
pub proof fn law_refund_refuses_another_signer(
    program_id: Address,
    accounts: Seq<Account>,
    maker: Address,
    escrow: Option<(Address, u8)>,
    vault: Option<(Address, u8)>,
    holding: Option<(Address, u8)>,
)
    requires
        accounts[1].key@ == escrow_address(
            program_id,
            maker,
            Escrow::seed_of(accounts[1].data@),
        ).0,
        escrow_address(program_id, accounts[0].key, Escrow::seed_of(accounts[1].data@)).0
            != escrow_address(program_id, maker, Escrow::seed_of(accounts[1].data@)).0,
        answers(
            escrow,
            escrow_address(program_id, accounts[0].key, Escrow::seed_of(accounts[1].data@)),
        ),
    ensures
        RefundAccounts::rejection(program_id, accounts, escrow, vault) is Some,
        RefundAccounts::early_rejection(program_id, accounts) is None ==> {
            ||| RefundAccounts::rejection(program_id, accounts, escrow, vault) == Some(
                ProgramError::InvalidAccountData,
            )
            ||| RefundAccounts::rejection(program_id, accounts, escrow, vault) == Some(
                ProgramError::InvalidSeeds,
            )
        },
        Refund::assembled(program_id, accounts, escrow, vault, holding) is Err,
{
}

} // verus!

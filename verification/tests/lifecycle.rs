use microsplit::{
    close_split, confirm_payment, confirm_payment_at, create_split, create_split_at,
    find_split_address, pay_split, pay_split_at, rederive_address, CloseSplit, CreateSplit,
    Identity, MicroSplitError, PaySplit, SplitAccount, SplitState, Transfer,
};

fn wallet(tag: u8) -> Identity {
    Identity::new([tag; 32])
}

fn program() -> Identity {
    Identity::new([7; 32])
}

fn creation_accounts(creator: Identity, split_id: &str) -> CreateSplit {
    let (address, _) = find_split_address(&program(), &creator, split_id).unwrap();
    CreateSplit {
        program_id: program(),
        split: SplitAccount { address, state: None },
        creator,
        unix_timestamp: 1_700_000_000,
    }
}

fn open_split(
    creator: Identity,
    split_id: &str,
    total: u64,
    participants: Vec<Identity>,
) -> SplitAccount {
    let mut ctx = creation_accounts(creator, split_id);
    create_split(&mut ctx, split_id.to_string(), total, participants).unwrap();
    ctx.split
}

fn settle(
    split: SplitAccount,
    creator: Identity,
    payer: Identity,
    split_id: &str,
) -> (SplitAccount, Result<Transfer, MicroSplitError>) {
    let mut ctx = PaySplit { program_id: program(), split, creator, payer };
    let due = pay_split(&ctx, split_id.to_string());
    if due.is_ok() {
        confirm_payment(&mut ctx, split_id.to_string()).unwrap();
    }
    (ctx.split, due)
}

fn paid_flags(split: &SplitAccount) -> Vec<bool> {
    split.state.as_ref().unwrap().paid().clone()
}

#[test]
fn creation_stores_a_fresh_record() {
    let creator = wallet(1);
    let mut ctx = creation_accounts(creator, "dinner");
    let address = ctx.split.address;
    let participants = vec![wallet(2), wallet(3), wallet(4)];
    let event = create_split(&mut ctx, "dinner".to_string(), 900, participants).unwrap();
    assert_eq!(event.split_id, "dinner");
    assert_eq!(event.creator, creator);
    assert_eq!(event.total_amount, 900);
    assert_eq!(event.num_participants, 3);
    assert_eq!(event.amount_per_person, 300);
    assert_eq!(ctx.split.address, address);
    let record: &SplitState = ctx.split.state.as_ref().unwrap();
    assert_eq!(record.creator(), creator);
    assert_eq!(record.split_id(), "dinner");
    assert_eq!(record.total_amount(), 900);
    assert_eq!(record.amount_per_person(), 300);
    assert_eq!(record.participants(), &vec![wallet(2), wallet(3), wallet(4)]);
    assert_eq!(record.paid(), &vec![false, false, false]);
    assert_eq!(record.created_at(), 1_700_000_000);
    assert_eq!(record.bump(), 255);
}

#[test]
fn shares_never_exceed_the_total() {
    for (total, count) in [(1u64, 1usize), (1, 10), (9, 10), (10, 10), (100, 3), (u64::MAX, 7)] {
        let participants: Vec<Identity> = (0..count).map(|i| wallet(10 + i as u8)).collect();
        let split = open_split(wallet(1), "fit", total, participants);
        let record = split.state.as_ref().unwrap();
        assert_eq!(record.amount_per_person(), total / count as u64);
        assert!(record.amount_per_person() as u128 * count as u128 <= total as u128);
        assert_eq!(record.paid(), &vec![false; count]);
    }
}

#[test]
fn three_way_split_settles_then_closes() {
    let (creator, x, y, z) = (wallet(1), wallet(2), wallet(3), wallet(4));
    let split = open_split(creator, "trip", 900, vec![x, y, z]);
    assert_eq!(split.state.as_ref().unwrap().amount_per_person(), 300);

    let (split, due) = settle(split, creator, x, "trip");
    assert_eq!(due, Ok(Transfer { from: x, to: creator, lamports: 300 }));
    let (split, due) = settle(split, creator, y, "trip");
    assert_eq!(due, Ok(Transfer { from: y, to: creator, lamports: 300 }));
    assert_eq!(paid_flags(&split), vec![true, true, false]);

    let mut closing = CloseSplit { split, creator };
    assert_eq!(close_split(&mut closing), Err(MicroSplitError::NotFullyPaid));
    assert_eq!(paid_flags(&closing.split), vec![true, true, false]);

    let (split, due) = settle(closing.split, creator, z, "trip");
    assert_eq!(due, Ok(Transfer { from: z, to: creator, lamports: 300 }));
    let mut closing = CloseSplit { split, creator };
    assert_eq!(close_split(&mut closing), Ok(()));
    assert!(closing.split.state.is_none());
}

#[test]
fn rounding_loses_the_remainder() {
    let (creator, x, y, z) = (wallet(1), wallet(2), wallet(3), wallet(4));
    let mut split = open_split(creator, "taxi", 100, vec![x, y, z]);
    assert_eq!(split.state.as_ref().unwrap().amount_per_person(), 33);
    let mut collected: u64 = 0;
    for payer in [x, y, z] {
        let (next, due) = settle(split, creator, payer, "taxi");
        collected += due.unwrap().lamports;
        split = next;
    }
    assert_eq!(collected, 99);
    assert!(collected < 100);
    let mut closing = CloseSplit { split, creator };
    assert_eq!(close_split(&mut closing), Ok(()));
}

#[test]
fn participant_count_has_limits() {
    let creator = wallet(1);
    let eleven: Vec<Identity> = (0..11).map(|i| wallet(20 + i)).collect();
    let mut ctx = creation_accounts(creator, "crowd");
    assert_eq!(
        create_split(&mut ctx, "crowd".to_string(), 1100, eleven),
        Err(MicroSplitError::TooManyParticipants)
    );
    assert!(ctx.split.state.is_none());
    assert_eq!(
        create_split(&mut ctx, "crowd".to_string(), 1100, vec![]),
        Err(MicroSplitError::NoParticipants)
    );
    assert!(ctx.split.state.is_none());
    let ten: Vec<Identity> = (0..10).map(|i| wallet(20 + i)).collect();
    assert!(create_split(&mut ctx, "crowd".to_string(), 1100, ten).is_ok());
    assert_eq!(ctx.split.state.as_ref().unwrap().amount_per_person(), 110);
}

#[test]
fn split_id_length_has_a_limit() {
    let creator = wallet(1);
    let long = "a".repeat(33);
    let mut ctx = CreateSplit {
        program_id: program(),
        split: SplitAccount { address: wallet(9), state: None },
        creator,
        unix_timestamp: 0,
    };
    assert_eq!(
        create_split(&mut ctx, long, 10, vec![wallet(2)]),
        Err(MicroSplitError::SplitIdTooLong)
    );
    assert!(ctx.split.state.is_none());

    let exact = "a".repeat(32);
    let mut ctx = creation_accounts(creator, &exact);
    assert!(create_split(&mut ctx, exact.clone(), 10, vec![wallet(2)]).is_ok());
    assert_eq!(ctx.split.state.as_ref().unwrap().split_id(), &exact);
}

#[test]
fn split_id_length_counts_bytes() {
    let creator = wallet(1);
    let eleven_euros = "€".repeat(11);
    assert_eq!(eleven_euros.len(), 33);
    let mut ctx = CreateSplit {
        program_id: program(),
        split: SplitAccount { address: wallet(9), state: None },
        creator,
        unix_timestamp: 0,
    };
    assert_eq!(
        create_split(&mut ctx, eleven_euros, 10, vec![wallet(2)]),
        Err(MicroSplitError::SplitIdTooLong)
    );
    let ten_euros = "€".repeat(10);
    let mut ctx = creation_accounts(creator, &ten_euros);
    assert!(create_split(&mut ctx, ten_euros, 10, vec![wallet(2)]).is_ok());
}

#[test]
fn zero_total_is_invalid() {
    let mut ctx = creation_accounts(wallet(1), "free");
    assert_eq!(
        create_split(&mut ctx, "free".to_string(), 0, vec![wallet(2)]),
        Err(MicroSplitError::InvalidAmount)
    );
    assert!(ctx.split.state.is_none());
}

#[test]
fn creation_checks_come_in_order() {
    let long = "b".repeat(40);
    let mut ctx = creation_accounts(wallet(1), "order");
    assert_eq!(
        create_split(&mut ctx, long.clone(), 0, vec![]),
        Err(MicroSplitError::SplitIdTooLong)
    );
    assert_eq!(
        create_split(&mut ctx, "order".to_string(), 0, vec![]),
        Err(MicroSplitError::NoParticipants)
    );
    let eleven: Vec<Identity> = (0..11).map(|i| wallet(20 + i)).collect();
    assert_eq!(
        create_split(&mut ctx, "order".to_string(), 0, eleven),
        Err(MicroSplitError::TooManyParticipants)
    );
    ctx.split.address = wallet(99);
    assert_eq!(
        create_split(&mut ctx, "order".to_string(), 0, vec![wallet(2)]),
        Err(MicroSplitError::InvalidAmount)
    );
    assert_eq!(
        create_split(&mut ctx, "order".to_string(), 5, vec![wallet(2)]),
        Err(MicroSplitError::AddressMismatch)
    );
}

#[test]
fn creation_at_another_address_is_refused() {
    let creator = wallet(1);
    let mut ctx = creation_accounts(creator, "mine");
    let (other, _) = find_split_address(&program(), &creator, "yours").unwrap();
    ctx.split.address = other;
    assert_eq!(
        create_split(&mut ctx, "mine".to_string(), 50, vec![wallet(2)]),
        Err(MicroSplitError::AddressMismatch)
    );
    assert!(ctx.split.state.is_none());
    assert_eq!(ctx.split.address, other);
}

#[test]
fn second_creation_with_same_id_fails() {
    let creator = wallet(1);
    let mut ctx = creation_accounts(creator, "rent");
    assert!(create_split(&mut ctx, "rent".to_string(), 900, vec![wallet(2), wallet(3)]).is_ok());

    assert_eq!(
        create_split(&mut ctx, "rent".to_string(), 500, vec![wallet(5)]),
        Err(MicroSplitError::AddressInUse)
    );
    let record = ctx.split.state.as_ref().unwrap();
    assert_eq!(record.total_amount(), 900);
    assert_eq!(record.participants(), &vec![wallet(2), wallet(3)]);

    let mut elsewhere = CreateSplit {
        program_id: program(),
        split: SplitAccount { address: wallet(42), state: None },
        creator,
        unix_timestamp: 3,
    };
    assert_eq!(
        create_split(&mut elsewhere, "rent".to_string(), 500, vec![wallet(5)]),
        Err(MicroSplitError::AddressMismatch)
    );
    assert!(elsewhere.split.state.is_none());
}

#[test]
fn other_creator_or_id_gets_another_record() {
    let first = open_split(wallet(1), "rent", 900, vec![wallet(2)]);
    let same_id = open_split(wallet(5), "rent", 900, vec![wallet(2)]);
    let other_id = open_split(wallet(1), "food", 900, vec![wallet(2)]);
    assert_ne!(first.address, same_id.address);
    assert_ne!(first.address, other_id.address);
}

#[test]
fn non_participant_cannot_settle() {
    let (creator, x, y, outsider) = (wallet(1), wallet(2), wallet(3), wallet(8));
    let split = open_split(creator, "club", 200, vec![x, y]);
    let mut ctx = PaySplit { program_id: program(), split, creator, payer: outsider };
    assert_eq!(pay_split(&ctx, "club".to_string()), Err(MicroSplitError::NotAParticipant));
    assert_eq!(
        confirm_payment(&mut ctx, "club".to_string()),
        Err(MicroSplitError::NotAParticipant)
    );
    assert_eq!(paid_flags(&ctx.split), vec![false, false]);

    ctx.payer = creator;
    assert_eq!(pay_split(&ctx, "club".to_string()), Err(MicroSplitError::NotAParticipant));
    assert_eq!(paid_flags(&ctx.split), vec![false, false]);
}

#[test]
fn settlement_cannot_be_replayed() {
    let (creator, x, y) = (wallet(1), wallet(2), wallet(3));
    let split = open_split(creator, "gift", 200, vec![x, y]);
    let mut ctx = PaySplit { program_id: program(), split, creator, payer: y };
    assert_eq!(
        pay_split(&ctx, "gift".to_string()),
        Ok(Transfer { from: y, to: creator, lamports: 100 })
    );
    assert_eq!(paid_flags(&ctx.split), vec![false, false]);
    let event = confirm_payment(&mut ctx, "gift".to_string()).unwrap();
    assert_eq!(event.split_id, "gift");
    assert_eq!(event.payer, y);
    assert_eq!(event.amount, 100);
    assert_eq!(event.participant_index, 1);
    assert_eq!(paid_flags(&ctx.split), vec![false, true]);

    assert_eq!(pay_split(&ctx, "gift".to_string()), Err(MicroSplitError::AlreadyPaid));
    assert_eq!(
        confirm_payment(&mut ctx, "gift".to_string()),
        Err(MicroSplitError::AlreadyPaid)
    );
    assert_eq!(paid_flags(&ctx.split), vec![false, true]);
}

#[test]
fn duplicate_participant_settles_first_entry_only() {
    let (creator, x) = (wallet(1), wallet(2));
    let split = open_split(creator, "twice", 90, vec![wallet(3), x, x]);
    let (split, due) = settle(split, creator, x, "twice");
    assert_eq!(due, Ok(Transfer { from: x, to: creator, lamports: 30 }));
    assert_eq!(paid_flags(&split), vec![false, true, false]);
    let (split, due) = settle(split, creator, x, "twice");
    assert_eq!(due, Err(MicroSplitError::AlreadyPaid));
    assert_eq!(paid_flags(&split), vec![false, true, false]);
}

#[test]
fn settlement_checks_the_address() {
    let (creator, x) = (wallet(1), wallet(2));
    let split = open_split(creator, "home", 80, vec![x]);
    let mut ctx = PaySplit { program_id: program(), split, creator, payer: x };

    assert_eq!(pay_split(&ctx, "away".to_string()), Err(MicroSplitError::AddressMismatch));
    assert_eq!(
        confirm_payment(&mut ctx, "away".to_string()),
        Err(MicroSplitError::AddressMismatch)
    );
    assert_eq!(pay_split(&ctx, "h".repeat(40)), Err(MicroSplitError::AddressMismatch));

    ctx.creator = wallet(6);
    assert_eq!(pay_split(&ctx, "home".to_string()), Err(MicroSplitError::AddressMismatch));
    ctx.creator = creator;

    ctx.program_id = wallet(70);
    assert_eq!(pay_split(&ctx, "home".to_string()), Err(MicroSplitError::AddressMismatch));
    ctx.program_id = program();

    let right = ctx.split.address;
    ctx.split.address = wallet(50);
    assert_eq!(pay_split(&ctx, "home".to_string()), Err(MicroSplitError::AddressMismatch));
    ctx.split.address = right;
    assert_eq!(paid_flags(&ctx.split), vec![false]);

    assert_eq!(
        pay_split(&ctx, "home".to_string()),
        Ok(Transfer { from: x, to: creator, lamports: 80 })
    );
}

#[test]
fn settlement_needs_a_record() {
    let mut ctx = PaySplit {
        program_id: program(),
        split: SplitAccount { address: wallet(9), state: None },
        creator: wallet(1),
        payer: wallet(2),
    };
    assert_eq!(pay_split(&ctx, "none".to_string()), Err(MicroSplitError::AddressMismatch));
    assert_eq!(
        confirm_payment(&mut ctx, "none".to_string()),
        Err(MicroSplitError::AddressMismatch)
    );
    assert!(ctx.split.state.is_none());
}

#[test]
fn closure_needs_every_share() {
    let (creator, x, y) = (wallet(1), wallet(2), wallet(3));
    let split = open_split(creator, "bar", 10, vec![x, y]);
    let mut closing = CloseSplit { split, creator };
    assert_eq!(close_split(&mut closing), Err(MicroSplitError::NotFullyPaid));
    let (split, _) = settle(closing.split, creator, y, "bar");
    let mut closing = CloseSplit { split, creator };
    assert_eq!(close_split(&mut closing), Err(MicroSplitError::NotFullyPaid));
    assert_eq!(paid_flags(&closing.split), vec![false, true]);
    let (split, _) = settle(closing.split, creator, x, "bar");
    let mut closing = CloseSplit { split, creator };
    assert_eq!(close_split(&mut closing), Ok(()));
    assert!(closing.split.state.is_none());
}

#[test]
fn closure_is_for_the_creator() {
    let (creator, x) = (wallet(1), wallet(2));
    let split = open_split(creator, "solo", 10, vec![x]);
    let mut closing = CloseSplit { split, creator: x };
    assert_eq!(close_split(&mut closing), Err(MicroSplitError::NotFullyPaid));
    let (split, _) = settle(closing.split, creator, x, "solo");
    let mut closing = CloseSplit { split, creator: x };
    assert_eq!(close_split(&mut closing), Err(MicroSplitError::Unauthorized));
    assert_eq!(paid_flags(&closing.split), vec![true]);
    closing.creator = creator;
    assert_eq!(close_split(&mut closing), Ok(()));
}

#[test]
fn closed_account_cannot_be_closed_again() {
    let (creator, x) = (wallet(1), wallet(2));
    let split = open_split(creator, "once", 10, vec![x]);
    let (split, _) = settle(split, creator, x, "once");
    let address = split.address;
    let mut closing = CloseSplit { split, creator };
    assert_eq!(close_split(&mut closing), Ok(()));
    assert_eq!(closing.split.address, address);
    assert_eq!(close_split(&mut closing), Err(MicroSplitError::Unauthorized));
    assert!(closing.split.state.is_none());
}

#[test]
fn creation_stores_the_bump_it_is_given() {
    let creator = wallet(1);
    let address = wallet(60);
    let mut ctx = CreateSplit {
        program_id: program(),
        split: SplitAccount { address, state: None },
        creator,
        unix_timestamp: -5,
    };
    assert_eq!(
        create_split_at(&mut ctx, None, "loan".to_string(), 7, vec![wallet(2), wallet(3)]),
        Err(MicroSplitError::AddressMismatch)
    );
    assert_eq!(
        create_split_at(&mut ctx, Some((wallet(61), 200)), "loan".to_string(), 7, vec![wallet(2)]),
        Err(MicroSplitError::AddressMismatch)
    );
    assert!(ctx.split.state.is_none());
    let pair = vec![wallet(2), wallet(3)];
    let event =
        create_split_at(&mut ctx, Some((address, 200)), "loan".to_string(), 7, pair).unwrap();
    assert_eq!(event.amount_per_person, 3);
    assert_eq!(event.num_participants, 2);
    let record = ctx.split.state.as_ref().unwrap();
    assert_eq!(record.bump(), 200);
    assert_eq!(record.created_at(), -5);
    assert_eq!(record.amount_per_person(), 3);
    assert_eq!(
        create_split_at(&mut ctx, Some((address, 200)), "loan".to_string(), 7, vec![wallet(2)]),
        Err(MicroSplitError::AddressInUse)
    );
}

#[test]
fn settlement_at_a_given_address() {
    let (creator, x) = (wallet(1), wallet(2));
    let split = open_split(creator, "flat", 12, vec![x, wallet(3)]);
    let address = split.address;
    let mut ctx = PaySplit { program_id: program(), split, creator, payer: x };
    assert_eq!(pay_split_at(&ctx, None), Err(MicroSplitError::AddressMismatch));
    assert_eq!(pay_split_at(&ctx, Some(wallet(77))), Err(MicroSplitError::AddressMismatch));
    assert_eq!(confirm_payment_at(&mut ctx, None), Err(MicroSplitError::AddressMismatch));
    assert_eq!(paid_flags(&ctx.split), vec![false, false]);
    assert_eq!(
        pay_split_at(&ctx, Some(address)),
        Ok(Transfer { from: x, to: creator, lamports: 6 })
    );
    let event = confirm_payment_at(&mut ctx, Some(address)).unwrap();
    assert_eq!(event.participant_index, 0);
    assert_eq!(event.amount, 6);
    assert_eq!(paid_flags(&ctx.split), vec![true, false]);
    assert_eq!(pay_split_at(&ctx, Some(address)), Err(MicroSplitError::AlreadyPaid));
    assert_eq!(pay_split_at(&ctx, None), Err(MicroSplitError::AlreadyPaid));
}

#[test]
fn rederived_address_is_the_account() {
    let (creator, x) = (wallet(1), wallet(2));
    let split = open_split(creator, "loop", 12, vec![x]);
    let address = split.address;
    let mut ctx = PaySplit { program_id: program(), split, creator, payer: x };
    assert_eq!(rederive_address(&ctx, "loop"), Some(address));
    assert_ne!(rederive_address(&ctx, "pool"), Some(address));
    ctx.split.state = None;
    assert_eq!(rederive_address(&ctx, "loop"), None);
}

#[test]
fn last_participant_index_fits_the_event() {
    let creator = wallet(1);
    let participants: Vec<Identity> = (0..10).map(|i| wallet(20 + i)).collect();
    let split = open_split(creator, "ten", 1000, participants);
    let mut ctx = PaySplit { program_id: program(), split, creator, payer: wallet(29) };
    let event = confirm_payment(&mut ctx, "ten".to_string()).unwrap();
    assert_eq!(event.participant_index, 9);
    assert_eq!(event.amount, 100);
    let mut expected = vec![false; 10];
    expected[9] = true;
    assert_eq!(paid_flags(&ctx.split), expected);
}

use charity::AccountId;
use charity::Charity;
use charity::Error;

fn alice() -> AccountId {
    AccountId(1)
}

fn bob() -> AccountId {
    AccountId(2)
}

#[test]
fn create_campaign() {
    let mut charity = Charity::new();
    let now: u64 = 0;
    let title_test = String::from("Kitty");
    let description_test = String::from("Hello Kitty");
    let deadline_test = now + 1000;

    charity.create_campaign(title_test.clone(), description_test.clone(), deadline_test, alice());
    let campaign_id = charity.get_campaign_id(1);
    let campaign_created = charity.get_campaign(campaign_id);

    println!("created new instance at {:?}", charity.get_campaign_count());

    assert_eq!(campaign_created.title, title_test);
    assert_eq!(campaign_created.balance, 0);
    assert_eq!(campaign_created.description, description_test);
    assert_eq!(campaign_created.deadline, deadline_test);
    assert_eq!(campaign_created.initiator, alice());
    assert_eq!(charity.get_campaign_count(), 1);
}

#[test]
fn donated_campaign() {
    let mut charity = Charity::new();
    let now: u64 = 0;
    let title_test = String::from("Kitty");
    let description_test = String::from("Hello Kitty");
    let deadline_test = now + 1000;

    charity.create_campaign(title_test.clone(), description_test.clone(), deadline_test, alice());
    let campaign_id = charity.get_campaign_id(1);

    match charity.donate_campaign(campaign_id.clone(), bob(), 200, now).err() {
        Some(_) => {
            assert!(false)
        }
        None => {}
    };

    let campaign = charity.get_campaign(campaign_id);

    assert_eq!(campaign.balance, 200);
}

#[test]
fn ended_campaign() {
    let mut charity = Charity::new();
    let now: u64 = 0;
    let title_test = String::from("Kitty");
    let description_test = String::from("Hello Kitty");
    let deadline_test = now + 1000;

    charity.create_campaign(title_test.clone(), description_test.clone(), deadline_test, alice());
    let campaign_id = charity.get_campaign_id(1);
    match charity.ended_campaign(campaign_id.clone(), alice(), now).err() {
        Some(_) => {
            assert!(false)
        }
        None => {}
    };

    let campaign = charity.get_campaign(campaign_id);

    assert_eq!(campaign.deadline, now);
}

#[test]
fn ended_campaign_must_initiator() {
    let mut charity = Charity::new();
    let now: u64 = 0;
    let title_test = String::from("Kitty");
    let description_test = String::from("Hello Kitty");
    let deadline_test = now + 1000;

    charity.create_campaign(title_test.clone(), description_test.clone(), deadline_test, alice());
    let campaign_id = charity.get_campaign_id(1);

    match charity.ended_campaign(campaign_id, bob(), now).err() {
        Some(err) => {
            assert!(err == Error::NotCampaignInitiator)
        }
        None => {
            assert!(false)
        }
    };
}

#[test]
fn withdraw_campaign_funds() {
    let mut charity = Charity::new();
    let now: u64 = 0;
    let title_test = String::from("Kitty");
    let description_test = String::from("Hello Kitty");
    let deadline_test = now + 1000;
    let balance_before: u128 = 0;
    println!("Balance before: {}", balance_before);
    charity.create_campaign(title_test.clone(), description_test.clone(), deadline_test, alice());
    let campaign_id = charity.get_campaign_id(1);

    match charity.donate_campaign(campaign_id.clone(), bob(), 200, now).err() {
        Some(_) => {
            assert!(false)
        }
        None => {}
    };

    match charity.ended_campaign(campaign_id.clone(), alice(), now).err() {
        Some(_) => {
            assert!(false)
        }
        None => {}
    };
    let payout = charity.withdraw_campaign_funds(campaign_id, alice(), now);
    let balance_after = balance_before + payout.map(|p| p.amount).unwrap_or(0);
    println!("Balance before: {}", balance_after);
}

#[test]
fn identifiers_strictly_increase_and_count_matches() {
    let mut charity = Charity::new();
    let id1 = charity.create_campaign(String::from("a"), String::from("a"), 10, alice());
    let id2 = charity.create_campaign(String::from("b"), String::from("b"), 20, bob());
    let id3 = charity.create_campaign(String::from("c"), String::from("c"), 30, alice());
    assert!(id1 < id2);
    assert!(id2 < id3);
    assert_eq!(charity.get_campaign_count(), 3);
    assert_eq!(id1, 1u64.to_be_bytes().to_vec());
    assert_eq!(id2, 2u64.to_be_bytes().to_vec());
    assert_eq!(id3, 3u64.to_be_bytes().to_vec());
    assert_eq!(charity.get_campaign_id(2), id2);
}

#[test]
fn donations_accumulate_in_any_order() {
    let amounts: [u128; 3] = [7, 50, 143];
    let mut forward = Charity::new();
    let id = forward.create_campaign(String::from("a"), String::from("a"), 1000, alice());
    for a in amounts {
        assert!(forward.donate_campaign(id.clone(), bob(), a, 5).is_ok());
    }
    assert_eq!(forward.get_campaign(id).balance, 200);

    let mut backward = Charity::new();
    let id = backward.create_campaign(String::from("a"), String::from("a"), 1000, alice());
    for a in amounts.iter().rev() {
        assert!(backward.donate_campaign(id.clone(), alice(), *a, 5).is_ok());
    }
    assert_eq!(backward.get_campaign(id).balance, 200);
}

#[test]
fn donation_event_carries_campaign_contributor_and_amount() {
    let mut charity = Charity::new();
    let id = charity.create_campaign(String::from("a"), String::from("a"), 1000, alice());
    let event = charity.donate_campaign(id.clone(), bob(), 200, 0).unwrap();
    assert_eq!(event.id_campaign, id);
    assert_eq!(event.sender, bob());
    assert_eq!(event.value, 200);
}

#[test]
fn close_event_carries_campaign_and_initiator() {
    let mut charity = Charity::new();
    let id = charity.create_campaign(String::from("a"), String::from("a"), 1000, alice());
    let event = charity.ended_campaign(id.clone(), alice(), 3).unwrap();
    assert_eq!(event.id_campaign, id);
    assert_eq!(event.initiator, alice());
}

#[test]
fn donation_after_deadline_is_rejected() {
    let mut charity = Charity::new();
    let id = charity.create_campaign(String::from("a"), String::from("a"), 100, alice());
    let r = charity.donate_campaign(id.clone(), bob(), 5, 101);
    assert_eq!(r.err(), Some(Error::CampaignEnded));
    assert_eq!(charity.get_campaign(id).balance, 0);
}

#[test]
fn donation_after_forced_close_is_rejected() {
    let mut charity = Charity::new();
    let id = charity.create_campaign(String::from("a"), String::from("a"), 1000, alice());
    assert!(charity.ended_campaign(id.clone(), alice(), 10).is_ok());
    let r = charity.donate_campaign(id.clone(), bob(), 5, 11);
    assert_eq!(r.err(), Some(Error::CampaignEnded));
}

#[test]
fn donation_at_the_deadline_still_counts() {
    let mut charity = Charity::new();
    let id = charity.create_campaign(String::from("a"), String::from("a"), 100, alice());
    assert!(charity.donate_campaign(id.clone(), bob(), 5, 100).is_ok());
    assert_eq!(charity.get_campaign(id).balance, 5);
}

#[test]
fn donation_to_unknown_campaign_is_rejected() {
    let mut charity = Charity::new();
    charity.create_campaign(String::from("a"), String::from("a"), 1000, alice());
    let absent = 9u64.to_be_bytes().to_vec();
    assert_eq!(charity.donate_campaign(absent, bob(), 5, 0).err(), Some(Error::NotCampaign));
    let malformed = vec![1u8, 2u8, 3u8];
    assert_eq!(charity.donate_campaign(malformed, bob(), 5, 0).err(), Some(Error::NotCampaign));
}

#[test]
fn close_of_unknown_campaign_is_rejected() {
    let mut charity = Charity::new();
    let absent = 1u64.to_be_bytes().to_vec();
    assert_eq!(charity.ended_campaign(absent, alice(), 0).err(), Some(Error::NotCampaign));
}

#[test]
fn second_close_after_time_passed_is_rejected() {
    let mut charity = Charity::new();
    let id = charity.create_campaign(String::from("a"), String::from("a"), 1000, alice());
    assert!(charity.ended_campaign(id.clone(), alice(), 10).is_ok());
    assert_eq!(charity.get_campaign(id.clone()).deadline, 10);
    let r = charity.ended_campaign(id, alice(), 11);
    assert_eq!(r.err(), Some(Error::CampaignNotLive));
}

#[test]
fn second_close_in_the_same_second_is_rejected() {
    let mut charity = Charity::new();
    let id = charity.create_campaign(String::from("a"), String::from("a"), 1000, alice());
    assert!(charity.ended_campaign(id.clone(), alice(), 10).is_ok());
    let r = charity.ended_campaign(id.clone(), alice(), 10);
    assert_eq!(r.err(), Some(Error::CampaignNotLive));
    assert_eq!(charity.get_campaign(id).deadline, 10);
}

#[test]
fn close_at_the_deadline_second_is_rejected() {
    let mut charity = Charity::new();
    let id = charity.create_campaign(String::from("a"), String::from("a"), 100, alice());
    let r = charity.ended_campaign(id.clone(), alice(), 100);
    assert_eq!(r.err(), Some(Error::CampaignNotLive));
    assert_eq!(charity.get_campaign(id).deadline, 100);
}

#[test]
fn withdrawal_before_close_is_rejected_regardless_of_balance() {
    let mut charity = Charity::new();
    let id = charity.create_campaign(String::from("a"), String::from("a"), 1000, alice());
    assert_eq!(
        charity.withdraw_campaign_funds(id.clone(), alice(), 0).err(),
        Some(Error::CampaignIsLive)
    );
    assert!(charity.donate_campaign(id.clone(), bob(), 200, 0).is_ok());
    assert_eq!(
        charity.withdraw_campaign_funds(id.clone(), alice(), 999).err(),
        Some(Error::CampaignIsLive)
    );
    assert_eq!(charity.get_campaign(id).balance, 200);
}

#[test]
fn withdrawal_by_non_initiator_is_rejected() {
    let mut charity = Charity::new();
    let id = charity.create_campaign(String::from("a"), String::from("a"), 1000, alice());
    assert!(charity.donate_campaign(id.clone(), bob(), 200, 0).is_ok());
    assert!(charity.ended_campaign(id.clone(), alice(), 5).is_ok());
    assert_eq!(
        charity.withdraw_campaign_funds(id, bob(), 6).err(),
        Some(Error::NotCampaignInitiator)
    );
}

#[test]
fn withdrawal_pays_out_once_and_only_once() {
    let mut charity = Charity::new();
    let id = charity.create_campaign(String::from("a"), String::from("a"), 1000, alice());
    assert!(charity.donate_campaign(id.clone(), bob(), 200, 0).is_ok());
    assert!(charity.ended_campaign(id.clone(), alice(), 5).is_ok());
    let payout = charity.withdraw_campaign_funds(id.clone(), alice(), 6).unwrap();
    assert_eq!(payout.beneficiary, alice());
    assert_eq!(payout.amount, 200);
    assert_eq!(charity.get_campaign(id.clone()).balance, 0);
    let again = charity.withdraw_campaign_funds(id, alice(), 7);
    assert_eq!(again.err(), Some(Error::NoFundsWithdraw));
}

#[test]
fn withdrawal_with_no_donations_is_rejected() {
    let mut charity = Charity::new();
    let id = charity.create_campaign(String::from("a"), String::from("a"), 1000, alice());
    assert!(charity.ended_campaign(id.clone(), alice(), 5).is_ok());
    assert_eq!(
        charity.withdraw_campaign_funds(id, alice(), 6).err(),
        Some(Error::NoFundsWithdraw)
    );
}

#[test]
fn campaign_id_lookup_out_of_range_is_empty() {
    let mut charity = Charity::new();
    assert_eq!(charity.get_campaign_id(1), Vec::<u8>::new());
    charity.create_campaign(String::from("a"), String::from("a"), 1000, alice());
    assert_eq!(charity.get_campaign_id(0), Vec::<u8>::new());
    assert_eq!(charity.get_campaign_id(2), Vec::<u8>::new());
    assert_eq!(charity.get_campaign_id(1), 1u64.to_be_bytes().to_vec());
}

#[test]
fn contains_campaign_tracks_registration() {
    let mut charity = Charity::new();
    let probe = 1u64.to_be_bytes().to_vec();
    assert!(!charity.contains_campaign(&probe));
    let id = charity.create_campaign(String::from("a"), String::from("a"), 1000, alice());
    assert!(charity.contains_campaign(&id));
    assert!(!charity.contains_campaign(&2u64.to_be_bytes().to_vec()));
}

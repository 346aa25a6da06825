use tryx::jid::JID;
use tryx::polls::{tally_votes, PollVote, PollsHelpers};

fn jid(user: &str) -> JID {
    JID::new(user.to_string(), "s.whatsapp.net".to_string()).unwrap()
}

fn ballot(secret: &[u8], poll_id: &str, creator: &JID, voter: &JID, options: &[&str]) -> PollVote {
    let hashes: Vec<Vec<u8>> = options.iter().map(|o| wacore::poll::compute_option_hash(o).to_vec()).collect();
    let (payload, iv) = wacore::poll::encrypt_poll_vote_with_secret(
        &hashes,
        secret,
        poll_id,
        &creator.to_string(),
        &voter.to_string(),
    )
    .unwrap();
    PollVote { voter: voter.duplicate(), enc_payload: payload, enc_iv: iv.to_vec() }
}

#[test]
fn votes_decrypt_to_their_option_hashes() {
    let secret = [7u8; 32];
    let creator = jid("100");
    let voter = jid("200");
    let vote = ballot(&secret, "POLL1", &creator, &voter, &["Red"]);
    let hashes = PollsHelpers::decrypt_vote(&vote.enc_payload, &vote.enc_iv, &secret, "POLL1", &creator, &voter).unwrap();
    assert_eq!(hashes, vec![wacore::poll::compute_option_hash("Red").to_vec()]);
    assert!(PollsHelpers::decrypt_vote(&vote.enc_payload, &vote.enc_iv, &[7u8; 16], "POLL1", &creator, &voter).is_err());
    assert!(PollsHelpers::decrypt_vote(&vote.enc_payload, &vote.enc_iv, &secret, "POLL2", &creator, &voter).is_err());
}

#[test]
fn latest_ballot_counts_and_empty_ballot_withdraws() {
    let secret = [3u8; 32];
    let creator = jid("100");
    let (a, b, c) = (jid("201"), jid("202"), jid("203"));
    let options = vec!["Red".to_string(), "Blue".to_string(), "Green".to_string()];
    let votes = vec![
        ballot(&secret, "P", &creator, &a, &["Red"]),
        ballot(&secret, "P", &creator, &b, &["Blue", "Green"]),
        ballot(&secret, "P", &creator, &c, &["Green"]),
        ballot(&secret, "P", &creator, &a, &["Blue"]),
        ballot(&secret, "P", &creator, &c, &[]),
        PollVote { voter: jid("204"), enc_payload: vec![1, 2, 3], enc_iv: vec![0; 12] },
    ];
    let results = PollsHelpers::aggregate_votes(&options, &votes, &secret, "P", &creator);
    assert_eq!(results.len(), 3);
    assert_eq!(results[0].name, "Red");
    assert!(results[0].voters.is_empty());
    assert_eq!(results[1].name, "Blue");
    assert_eq!(results[1].voters, vec!["201@s.whatsapp.net".to_string(), "202@s.whatsapp.net".to_string()]);
    assert_eq!(results[2].voters, vec!["202@s.whatsapp.net".to_string()]);
}

#[test]
fn tally_counts_decrypted_ballots() {
    let options = vec!["A".to_string(), "B".to_string()];
    let hashes = vec![vec![1u8; 32], vec![2u8; 32]];
    let outcomes = vec![
        ("x".to_string(), Ok(vec![vec![2u8; 32]])),
        ("y".to_string(), Ok(vec![vec![1u8; 32], vec![9u8; 32], vec![2u8; 31]])),
        ("z".to_string(), Err("bad tag".to_string())),
        ("x".to_string(), Ok(vec![vec![1u8; 32], vec![2u8; 32]])),
        ("y".to_string(), Ok(vec![])),
    ];
    let results = tally_votes(&options, &hashes, outcomes);
    assert_eq!(results[0].voters, vec!["x".to_string()]);
    assert_eq!(results[1].voters, vec!["x".to_string()]);
}

#[test]
fn wrong_secret_counts_nothing() {
    let creator = jid("100");
    let votes = vec![ballot(&[5u8; 32], "P", &creator, &jid("201"), &["Red"])];
    let results = PollsHelpers::aggregate_votes(&vec!["Red".to_string()], &votes, &[6u8; 32], "P", &creator);
    assert!(results[0].voters.is_empty());
    let results = PollsHelpers::aggregate_votes(&vec!["Red".to_string()], &votes, &[5u8; 32], "P", &creator);
    assert_eq!(results[0].voters, vec!["201@s.whatsapp.net".to_string()]);
}

#[test]
fn duplicate_options_count_under_the_first() {
    let options = vec!["Same".to_string(), "Same".to_string()];
    let hashes = vec![vec![4u8; 32], vec![4u8; 32]];
    let results = tally_votes(&options, &hashes, vec![("v".to_string(), Ok(vec![vec![4u8; 32]]))]);
    assert_eq!(results[0].voters, vec!["v".to_string()]);
    assert!(results[1].voters.is_empty());
}

#[test]
fn options_without_a_hash_get_no_voters() {
    let options = vec!["A".to_string(), "B".to_string()];
    let hashes = vec![vec![1u8; 32]];
    let results = tally_votes(&options, &hashes, vec![("v".to_string(), Ok(vec![vec![1u8; 32], vec![2u8; 32]]))]);
    assert_eq!(results.len(), 2);
    assert_eq!(results[0].voters, vec!["v".to_string()]);
    assert!(results[1].voters.is_empty());
}

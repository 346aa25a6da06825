//! Poll tallying: decrypt each vote, keep each voter's latest ballot, and
//! count the ballots per option. Options are recognised by the hash of their
//! name; decryption and hashing are those of the protocol library.
use vstd::prelude::*;
use crate::jid::{jid_display, JID};

verus! {

/// The hash a ballot uses to refer to an option name.
pub uninterp spec fn poll_option_hash(name: Seq<char>) -> Seq<u8>;

/// What decrypting a ballot yields: the selected option hashes, or the
/// error's message.
pub uninterp spec fn poll_vote_decryption(
    enc_payload: Seq<u8>,
    enc_iv: Seq<u8>,
    message_secret: Seq<u8>,
    poll_msg_id: Seq<char>,
    poll_creator: Seq<char>,
    voter: Seq<char>,
) -> Result<Seq<Seq<u8>>, Seq<char>>;

pub open spec fn byte_seqs(v: Seq<Vec<u8>>) -> Seq<Seq<u8>> {
    v.map_values(|b: Vec<u8>| b@)
}

pub open spec fn texts(v: Seq<String>) -> Seq<Seq<char>> {
    v.map_values(|s: String| s@)
}

/// `wacore::poll::compute_option_hash`: the hash by which ballots name an
/// option. The contract names the result (a function of the name) and states
/// its 32-byte length, which the function's return type fixes.
#[verifier::external_body]
fn option_hash(name: &str) -> (h: Vec<u8>)
    ensures
        h@ == poll_option_hash(name@),
        h@.len() == 32,
{
    wacore::poll::compute_option_hash(name).to_vec()
}

/// `wacore::poll::decrypt_poll_vote_with_secret`: decrypts a ballot. The
/// contract names the result (a function of the arguments, with an error
/// turned into its message) and states that a message secret of other than
/// 32 bytes is refused, as the function checks first.
#[verifier::external_body]
fn decrypt_ballot(
    enc_payload: &[u8],
    enc_iv: &[u8],
    message_secret: &[u8],
    poll_msg_id: &str,
    poll_creator: &str,
    voter: &str,
) -> (r: Result<Vec<Vec<u8>>, String>)
    ensures
        match r {
            Ok(v) => poll_vote_decryption(enc_payload@, enc_iv@, message_secret@, poll_msg_id@, poll_creator@, voter@) == Ok::<Seq<Seq<u8>>, Seq<char>>(byte_seqs(v@)),
            Err(e) => poll_vote_decryption(enc_payload@, enc_iv@, message_secret@, poll_msg_id@, poll_creator@, voter@) == Err::<Seq<Seq<u8>>, Seq<char>>(e@),
        },
        message_secret@.len() != 32 ==> r is Err,
{
    let ciphertext = wacore::poll::PollVoteCiphertext { enc_payload, enc_iv };
    wacore::poll::decrypt_poll_vote_with_secret(ciphertext, message_secret, poll_msg_id, poll_creator, voter)
        .map_err(|e| e.to_string())
}

/// The text form of an address, as ballots are keyed by it.
pub open spec fn jid_text(j: JID) -> Seq<char> {
    jid_display(j.user@, j.server, j.agent, j.device)
}

/// An encrypted ballot and who cast it.
pub struct PollVote {
    pub voter: JID,
    pub enc_payload: Vec<u8>,
    pub enc_iv: Vec<u8>,
}

/// An option and the voters who picked it.
pub struct PollOptionResult {
    pub name: String,
    pub voters: Vec<String>,
}

/// A voter's latest ballot: the voter's address text and the option hashes.
pub type Ballot = (Seq<char>, Seq<Seq<u8>>);

pub open spec fn has_voter(latest: Seq<Ballot>, voter: Seq<char>) -> bool {
    exists|j: int| 0 <= j < latest.len() && latest[j].0 == voter
}

pub open spec fn voter_pos(latest: Seq<Ballot>, voter: Seq<char>) -> int {
    choose|j: int| 0 <= j < latest.len() && latest[j].0 == voter
}

/// Applies one decrypted ballot: a failed decryption changes nothing, an
/// empty selection withdraws the voter's ballot, any other selection
/// replaces it (or is added when the voter has none yet).
pub open spec fn apply_ballot(latest: Seq<Ballot>, voter: Seq<char>, outcome: Result<Seq<Seq<u8>>, Seq<char>>) -> Seq<Ballot> {
    match outcome {
        Err(_) => latest,
        Ok(hashes) => if has_voter(latest, voter) {
            if hashes.len() == 0 {
                latest.remove(voter_pos(latest, voter))
            } else {
                latest.update(voter_pos(latest, voter), (voter, hashes))
            }
        } else if hashes.len() == 0 {
            latest
        } else {
            latest.push((voter, hashes))
        },
    }
}

/// The latest ballot of each voter after a sequence of decrypted ballots.
pub open spec fn latest_ballots(outcomes: Seq<(Seq<char>, Result<Seq<Seq<u8>>, Seq<char>>)>) -> Seq<Ballot>
    decreases outcomes.len(),
{
    if outcomes.len() == 0 {
        Seq::empty()
    } else {
        let last = outcomes.last();
        apply_ballot(latest_ballots(outcomes.drop_last()), last.0, last.1)
    }
}

/// The decrypted ballots of a poll, in the order they were cast.
pub open spec fn ballot_outcomes(
    votes: Seq<PollVote>,
    message_secret: Seq<u8>,
    poll_msg_id: Seq<char>,
    creator: Seq<char>,
) -> Seq<(Seq<char>, Result<Seq<Seq<u8>>, Seq<char>>)> {
    Seq::new(
        votes.len(),
        |k: int| (
            jid_text(votes[k].voter),
            poll_vote_decryption(votes[k].enc_payload@, votes[k].enc_iv@, message_secret, poll_msg_id, creator, jid_text(votes[k].voter)),
        ),
    )
}

/// The index of the first option whose hash is `h`, or -1.
pub open spec fn first_match(option_hashes: Seq<Seq<u8>>, h: Seq<u8>) -> int
    decreases option_hashes.len(),
{
    if option_hashes.len() == 0 {
        -1
    } else if option_hashes[0] == h {
        0
    } else {
        let r = first_match(option_hashes.drop_first(), h);
        if r < 0 { -1 } else { r + 1 }
    }
}

/// The voter once for each selected hash that is 32 bytes long and first
/// names option `i`.
pub open spec fn ballot_votes(voter: Seq<char>, hashes: Seq<Seq<u8>>, option_hashes: Seq<Seq<u8>>, i: int) -> Seq<Seq<char>>
    decreases hashes.len(),
{
    if hashes.len() == 0 {
        Seq::empty()
    } else {
        let h = hashes.last();
        ballot_votes(voter, hashes.drop_last(), option_hashes, i) + if h.len() == 32 && first_match(option_hashes, h) == i {
            seq![voter]
        } else {
            Seq::<Seq<char>>::empty()
        }
    }
}

/// The voters of option `i`, ballot by ballot.
pub open spec fn option_voters(latest: Seq<Ballot>, option_hashes: Seq<Seq<u8>>, i: int) -> Seq<Seq<char>>
    decreases latest.len(),
{
    if latest.len() == 0 {
        Seq::empty()
    } else {
        option_voters(latest.drop_last(), option_hashes, i) + ballot_votes(latest.last().0, latest.last().1, option_hashes, i)
    }
}

pub open spec fn distinct_voters(latest: Seq<Ballot>) -> bool {
    forall|a: int, b: int| 0 <= a < b < latest.len() ==> latest[a].0 != latest[b].0
}

/// The first match is an index of the hashes, or -1.
pub proof fn lemma_first_match_range(option_hashes: Seq<Seq<u8>>, h: Seq<u8>)
    ensures
        -1 <= first_match(option_hashes, h) < option_hashes.len(),
    decreases option_hashes.len(),
{
    if option_hashes.len() > 0 {
        lemma_first_match_range(option_hashes.drop_first(), h);
    }
}

pub proof fn lemma_first_match_found(option_hashes: Seq<Seq<u8>>, h: Seq<u8>, i: int)
    requires
        0 <= i < option_hashes.len(),
        option_hashes[i] == h,
        forall|k: int| 0 <= k < i ==> option_hashes[k] != h,
    ensures
        first_match(option_hashes, h) == i,
    decreases i,
{
    if i > 0 {
        lemma_first_match_found(option_hashes.drop_first(), h, i - 1);
    }
}

pub proof fn lemma_first_match_absent(option_hashes: Seq<Seq<u8>>, h: Seq<u8>)
    requires
        forall|k: int| 0 <= k < option_hashes.len() ==> option_hashes[k] != h,
    ensures
        first_match(option_hashes, h) == -1,
    decreases option_hashes.len(),
{
    if option_hashes.len() > 0 {
        lemma_first_match_absent(option_hashes.drop_first(), h);
    }
}

/// Applying a ballot keeps each voter at most once.
pub proof fn lemma_apply_keeps_distinct(latest: Seq<Ballot>, voter: Seq<char>, outcome: Result<Seq<Seq<u8>>, Seq<char>>)
    requires
        distinct_voters(latest),
    ensures
        distinct_voters(apply_ballot(latest, voter, outcome)),
{
    if has_voter(latest, voter) {
        let p = voter_pos(latest, voter);
        let r = apply_ballot(latest, voter, outcome);
        assert forall|a: int, b: int| 0 <= a < b < r.len() implies r[a].0 != r[b].0 by {
            match outcome {
                Err(_) => {},
                Ok(hashes) => {
                    if hashes.len() == 0 {
                        let aa = if a < p { a } else { a + 1 };
                        let bb = if b < p { b } else { b + 1 };
                        assert(r[a] == latest[aa]);
                        assert(r[b] == latest[bb]);
                    } else {
                        assert(r[p].0 == latest[p].0);
                    }
                },
            }
        }
    }
}

/// Each voter holds at most one ballot at any time.
pub proof fn lemma_latest_distinct(outcomes: Seq<(Seq<char>, Result<Seq<Seq<u8>>, Seq<char>>)>)
    ensures
        distinct_voters(latest_ballots(outcomes)),
    decreases outcomes.len(),
{
    if outcomes.len() > 0 {
        lemma_latest_distinct(outcomes.drop_last());
        lemma_apply_keeps_distinct(latest_ballots(outcomes.drop_last()), outcomes.last().0, outcomes.last().1);
    }
}

fn bytes_eq(a: &[u8], b: &[u8]) -> (r: bool)
    ensures
        r == (a@ == b@),
{
    if a.len() != b.len() {
        return false;
    }
    let mut i: usize = 0;
    while i < a.len()
        invariant
            a@.len() == b@.len(),
            i <= a@.len(),
            forall|j: int| 0 <= j < i ==> a@[j] == b@[j],
        decreases a@.len() - i,
    {
        if a[i] != b[i] {
            return false;
        }
        i = i + 1;
    }
    assert(a@ =~= b@);
    true
}

fn string_eq(a: &String, b: &String) -> (r: bool)
    ensures
        r == (a@ == b@),
{
    *a == *b
}

pub open spec fn ballot_view(e: (String, Vec<Vec<u8>>)) -> Ballot {
    (e.0@, byte_seqs(e.1@))
}

pub open spec fn ballots_view(v: Seq<(String, Vec<Vec<u8>>)>) -> Seq<Ballot> {
    v.map_values(|e: (String, Vec<Vec<u8>>)| ballot_view(e))
}

/// Applies one decrypted ballot to the list of latest ballots.
fn apply_ballot_exec(latest: &mut Vec<(String, Vec<Vec<u8>>)>, voter: String, outcome: Result<Vec<Vec<u8>>, String>)
    requires
        distinct_voters(ballots_view(old(latest)@)),
    ensures
        ballots_view(final(latest)@) == apply_ballot(
            ballots_view(old(latest)@),
            voter@,
            match outcome {
                Ok(v) => Ok::<Seq<Seq<u8>>, Seq<char>>(byte_seqs(v@)),
                Err(e) => Err::<Seq<Seq<u8>>, Seq<char>>(e@),
            },
        ),
{
    let ghost before = ballots_view(latest@);
    match outcome {
        Err(_) => {},
        Ok(hashes) => {
            let n = latest.len();
            let mut p: usize = 0;
            let mut found = false;
            while p < n && !found
                invariant
                    n == latest@.len(),
                    latest@ == old(latest)@,
                    before == ballots_view(latest@),
                    p <= n,
                    found ==> p < n && latest@[p as int].0@ == voter@,
                    forall|j: int| 0 <= j < p ==> latest@[j].0@ != voter@,
                decreases n - p + (if found { 0int } else { 1int }),
            {
                if string_eq(&latest[p].0, &voter) {
                    found = true;
                } else {
                    p = p + 1;
                }
            }
            if found {
                assert(before[p as int] == ballot_view(latest@[p as int]));
                assert(before[p as int].0 == voter@);
                assert(has_voter(before, voter@));
                let ghost q = voter_pos(before, voter@);
                assert(q == p) by {
                    if q != p {
                        assert(before[q].0 == before[p as int].0);
                    }
                };
                if hashes.len() == 0 {
                    latest.remove(p);
                    assert(ballots_view(latest@) =~= before.remove(p as int));
                } else {
                    let ghost hv = byte_seqs(hashes@);
                    latest.set(p, (voter, hashes));
                    assert(ballots_view(latest@) =~= before.update(p as int, (voter@, hv)));
                }
            } else {
                assert(p == n);
                assert(!has_voter(before, voter@)) by {
                    if has_voter(before, voter@) {
                        let ghost q = voter_pos(before, voter@);
                        assert(before[q] == ballot_view(latest@[q]));
                    }
                };
                if hashes.len() > 0 {
                    let ghost hv = byte_seqs(hashes@);
                    latest.push((voter, hashes));
                    assert(ballots_view(latest@) =~= before.push((voter@, hv)));
                }
            }
        },
    }
}

fn position_of(option_hashes: &Vec<Vec<u8>>, h: &Vec<u8>) -> (r: usize)
    ensures
        r as int == first_match(byte_seqs(option_hashes@), h@) || (r == option_hashes@.len() && first_match(byte_seqs(option_hashes@), h@) == -1),
        r <= option_hashes@.len(),
{
    let ghost hs = byte_seqs(option_hashes@);
    let mut i: usize = 0;
    while i < option_hashes.len()
        invariant
            hs == byte_seqs(option_hashes@),
            i <= option_hashes@.len(),
            forall|k: int| 0 <= k < i ==> hs[k] != h@,
        decreases option_hashes@.len() - i,
    {
        if bytes_eq(option_hashes[i].as_slice(), h.as_slice()) {
            proof { lemma_first_match_found(hs, h@, i as int); }
            return i;
        }
        i = i + 1;
    }
    proof { lemma_first_match_absent(hs, h@); }
    i
}

/// The voters of option `i` over the latest ballots.
fn collect_option_voters(latest: &Vec<(String, Vec<Vec<u8>>)>, option_hashes: &Vec<Vec<u8>>, i: usize) -> (out: Vec<String>)
    ensures
        texts(out@) == option_voters(ballots_view(latest@), byte_seqs(option_hashes@), i as int),
{
    let ghost lv = ballots_view(latest@);
    let ghost ohs = byte_seqs(option_hashes@);
    let mut out: Vec<String> = Vec::new();
    let mut k: usize = 0;
    while k < latest.len()
        invariant
            lv == ballots_view(latest@),
            ohs == byte_seqs(option_hashes@),
            k <= latest@.len(),
            texts(out@) == option_voters(lv.take(k as int), ohs, i as int),
        decreases latest@.len() - k,
    {
        let voter = &latest[k].0;
        let hashes = &latest[k].1;
        let ghost hv = byte_seqs(hashes@);
        let ghost start = texts(out@);
        let mut j: usize = 0;
        while j < hashes.len()
            invariant
                lv == ballots_view(latest@),
                ohs == byte_seqs(option_hashes@),
                k < latest@.len(),
                    hv == byte_seqs(hashes@),
                voter == &latest@[k as int].0,
                hashes == &latest@[k as int].1,
                j <= hashes@.len(),
                texts(out@) == start + ballot_votes(voter@, hv.take(j as int), ohs, i as int),
            decreases hashes@.len() - j,
        {
            let h = &hashes[j];
            let ghost before = texts(out@);
            assert(hv.take(j + 1).drop_last() =~= hv.take(j as int));
            assert(hv.take(j + 1).last() == h@);
            if h.len() == 32 {
                let idx = position_of(option_hashes, h);
                proof { lemma_first_match_range(ohs, h@); }
                if idx == i && idx < option_hashes.len() {
                    out.push(voter.clone());
                    assert(texts(out@) =~= before.push(voter@));
                } else {
                }
            }
            assert(texts(out@) =~= start + ballot_votes(voter@, hv.take(j + 1), ohs, i as int));
            j = j + 1;
        }
        assert(hv.take(j as int) =~= hv);
        assert(lv.take(k + 1).drop_last() =~= lv.take(k as int));
        assert(lv.take(k + 1).last() == lv[k as int]);
        assert(lv[k as int] == (voter@, hv));
        k = k + 1;
    }
    assert(lv.take(k as int) =~= lv);
    out
}

/// The view of decrypted ballots: each voter's address text and what
/// decrypting the ballot gave.
pub open spec fn outcomes_view(v: Seq<(String, Result<Vec<Vec<u8>>, String>)>) -> Seq<(Seq<char>, Result<Seq<Seq<u8>>, Seq<char>>)> {
    v.map_values(|e: (String, Result<Vec<Vec<u8>>, String>)| (e.0@, match e.1 {
        Ok(v) => Ok::<Seq<Seq<u8>>, Seq<char>>(byte_seqs(v@)),
        Err(m) => Err::<Seq<Seq<u8>>, Seq<char>>(m@),
    }))
}

/// Counts decrypted ballots, given in the order they were cast, against the
/// options and their hashes: a failed decryption is skipped, a voter's
/// latest non-empty selection is kept (an empty one withdraws the voter), and
/// each option lists the voters whose kept selection names it, ballot by
/// ballot in the order voters first took their place.
pub fn tally_votes(
    poll_options: &Vec<String>,
    option_hashes: &Vec<Vec<u8>>,
    outcomes: Vec<(String, Result<Vec<Vec<u8>>, String>)>,
) -> (results: Vec<PollOptionResult>)
    ensures
        results@.len() == poll_options@.len(),
        forall|i: int| 0 <= i < results@.len() ==> {
            &&& #[trigger] results@[i].name@ == poll_options@[i]@
            &&& texts(results@[i].voters@) == option_voters(
                latest_ballots(outcomes_view(outcomes@)),
                byte_seqs(option_hashes@),
                i,
            )
        },
{
    let ghost ov = outcomes_view(outcomes@);
    let mut latest: Vec<(String, Vec<Vec<u8>>)> = Vec::new();
    assert(ballots_view(latest@) =~= latest_ballots(ov.take(0)));
    let mut rest = outcomes;
    let n = rest.len();
    let mut k: usize = 0;
    while k < n
        invariant
            n == ov.len(),
            k <= n,
            ballots_view(latest@) == latest_ballots(ov.take(k as int)),
            outcomes_view(rest@) == ov.skip(k as int),
            rest@.len() == n - k,
        decreases n - k,
    {
        let ghost before = rest@;
        let (voter, outcome) = rest.remove(0);
        assert(outcomes_view(before)[0] == ov.skip(k as int)[0]);
        assert forall|j: int| 0 <= j < rest@.len() implies #[trigger] outcomes_view(rest@)[j] == ov.skip(k + 1)[j] by {
            assert(rest@[j] == before[j + 1]);
            assert(outcomes_view(before)[j + 1] == ov.skip(k as int)[j + 1]);
        }
        assert(outcomes_view(rest@) =~= ov.skip(k + 1));
        proof { lemma_latest_distinct(ov.take(k as int)); }
        assert(ov.take(k + 1).drop_last() =~= ov.take(k as int));
        assert(ov.take(k + 1).last() == ov[k as int]);
        apply_ballot_exec(&mut latest, voter, outcome);
        k = k + 1;
    }
    assert(ov.take(k as int) =~= ov);
    let ghost ohs = byte_seqs(option_hashes@);
    let mut results: Vec<PollOptionResult> = Vec::new();
    let mut i: usize = 0;
    while i < poll_options.len()
        invariant
            i <= poll_options@.len(),
            results@.len() == i,
            ohs == byte_seqs(option_hashes@),
            ballots_view(latest@) == latest_ballots(ov),
            forall|r: int| 0 <= r < i ==> {
                &&& #[trigger] results@[r].name@ == poll_options@[r]@
                &&& texts(results@[r].voters@) == option_voters(latest_ballots(ov), ohs, r)
            },
        decreases poll_options@.len() - i,
    {
        let voters = collect_option_voters(&latest, option_hashes, i);
        results.push(PollOptionResult { name: poll_options[i].clone(), voters });
        i = i + 1;
    }
    results
}

/// Poll operations that need no connection: decrypting one vote and
/// tallying a poll from its encrypted votes.
pub struct PollsHelpers;

impl PollsHelpers {
    /// Decrypts one ballot: the selected option hashes, or the error's
    /// message.
    pub fn decrypt_vote(
        enc_payload: &[u8],
        enc_iv: &[u8],
        message_secret: &[u8],
        poll_msg_id: &str,
        poll_creator_jid: &JID,
        voter_jid: &JID,
    ) -> (r: Result<Vec<Vec<u8>>, String>)
        ensures
            match r {
                Ok(v) => poll_vote_decryption(enc_payload@, enc_iv@, message_secret@, poll_msg_id@, jid_text(*poll_creator_jid), jid_text(*voter_jid)) == Ok::<Seq<Seq<u8>>, Seq<char>>(byte_seqs(v@)),
                Err(e) => poll_vote_decryption(enc_payload@, enc_iv@, message_secret@, poll_msg_id@, jid_text(*poll_creator_jid), jid_text(*voter_jid)) == Err::<Seq<Seq<u8>>, Seq<char>>(e@),
            },
            message_secret@.len() != 32 ==> r is Err,
    {
        let creator = poll_creator_jid.to_string();
        let voter = voter_jid.to_string();
        decrypt_ballot(enc_payload, enc_iv, message_secret, poll_msg_id, creator.as_str(), voter.as_str())
    }

    /// Tallies a poll: the option hashes are computed, each vote is
    /// decrypted in turn, and the ballots are counted as `tally_votes` does.
    pub fn aggregate_votes(
        poll_options: &Vec<String>,
        votes: &Vec<PollVote>,
        message_secret: &[u8],
        poll_msg_id: &str,
        poll_creator_jid: &JID,
    ) -> (results: Vec<PollOptionResult>)
        ensures
            results@.len() == poll_options@.len(),
            forall|i: int| 0 <= i < results@.len() ==> {
                &&& #[trigger] results@[i].name@ == poll_options@[i]@
                &&& texts(results@[i].voters@) == option_voters(
                    latest_ballots(ballot_outcomes(votes@, message_secret@, poll_msg_id@, jid_text(*poll_creator_jid))),
                    Seq::new(poll_options@.len(), |o: int| poll_option_hash(poll_options@[o]@)),
                    i,
                )
            },
    {
        let creator = poll_creator_jid.to_string();
        let ghost outcomes = ballot_outcomes(votes@, message_secret@, poll_msg_id@, jid_text(*poll_creator_jid));
        let ghost ohs_spec = Seq::new(poll_options@.len(), |o: int| poll_option_hash(poll_options@[o]@));

        let mut option_hashes: Vec<Vec<u8>> = Vec::new();
        let mut o: usize = 0;
        while o < poll_options.len()
            invariant
                o <= poll_options@.len(),
                ohs_spec == Seq::new(poll_options@.len(), |o: int| poll_option_hash(poll_options@[o]@)),
                byte_seqs(option_hashes@) == ohs_spec.take(o as int),
            decreases poll_options@.len() - o,
        {
            let h = option_hash(poll_options[o].as_str());
            let ghost before = byte_seqs(option_hashes@);
            let ghost hv = h@;
            option_hashes.push(h);
            assert(byte_seqs(option_hashes@) =~= before.push(hv));
            assert(ohs_spec.take(o + 1) =~= ohs_spec.take(o as int).push(ohs_spec[o as int]));
            o = o + 1;
        }
        assert(ohs_spec.take(o as int) =~= ohs_spec);

        let mut decrypted: Vec<(String, Result<Vec<Vec<u8>>, String>)> = Vec::new();
        let mut k: usize = 0;
        while k < votes.len()
            invariant
                k <= votes@.len(),
                creator@ == jid_text(*poll_creator_jid),
                outcomes == ballot_outcomes(votes@, message_secret@, poll_msg_id@, jid_text(*poll_creator_jid)),
                outcomes_view(decrypted@) == outcomes.take(k as int),
                byte_seqs(option_hashes@) == ohs_spec,
                ohs_spec == Seq::new(poll_options@.len(), |o: int| poll_option_hash(poll_options@[o]@)),
            decreases votes@.len() - k,
        {
            let vote = &votes[k];
            let voter = vote.voter.to_string();
            let outcome = decrypt_ballot(vote.enc_payload.as_slice(), vote.enc_iv.as_slice(), message_secret, poll_msg_id, creator.as_str(), voter.as_str());
            let ghost before = outcomes_view(decrypted@);
            decrypted.push((voter, outcome));
            assert(outcomes_view(decrypted@) =~= before.push(outcomes[k as int]));
            assert(outcomes.take(k + 1) =~= outcomes.take(k as int).push(outcomes[k as int]));
            k = k + 1;
        }
        assert(outcomes.take(k as int) =~= outcomes);
        assert(outcomes_view(decrypted@) == outcomes);
        assert(byte_seqs(option_hashes@) == ohs_spec);
        let results = tally_votes(poll_options, &option_hashes, decrypted);
        assert forall|i: int| 0 <= i < results@.len() implies texts(#[trigger] results@[i].voters@) == option_voters(latest_ballots(outcomes), ohs_spec, i) by {
            assert(results@[i].name@ == poll_options@[i]@);
        }
        results
    }
}

/// A later ballot replaces the voter's earlier one: after a non-empty
/// selection, the voter holds exactly that selection.
pub proof fn lemma_later_ballot_replaces(
    outcomes: Seq<(Seq<char>, Result<Seq<Seq<u8>>, Seq<char>>)>,
    voter: Seq<char>,
    hashes: Seq<Seq<u8>>,
)
    requires
        hashes.len() > 0,
    ensures
        ({
            let latest = latest_ballots(outcomes.push((voter, Ok(hashes))));
            &&& has_voter(latest, voter)
            &&& forall|j: int| 0 <= j < latest.len() && latest[j].0 == voter ==> latest[j].1 == hashes
        }),
{
    let all = outcomes.push((voter, Ok::<Seq<Seq<u8>>, Seq<char>>(hashes)));
    assert(all.drop_last() =~= outcomes);
    lemma_latest_distinct(outcomes);
    let prev = latest_ballots(outcomes);
    let latest = latest_ballots(all);
    if has_voter(prev, voter) {
        let p = voter_pos(prev, voter);
        assert(latest[p].0 == voter);
        assert forall|j: int| 0 <= j < latest.len() && latest[j].0 == voter implies latest[j].1 == hashes by {
            if j != p {
                assert(prev[j].0 == prev[p].0);
            }
        }
    } else {
        assert(latest[prev.len() as int].0 == voter);
    }
}

/// An empty selection withdraws the voter's ballot.
pub proof fn lemma_empty_ballot_withdraws(
    outcomes: Seq<(Seq<char>, Result<Seq<Seq<u8>>, Seq<char>>)>,
    voter: Seq<char>,
)
    ensures
        !has_voter(latest_ballots(outcomes.push((voter, Ok(Seq::<Seq<u8>>::empty())))), voter),
{
    let all = outcomes.push((voter, Ok::<Seq<Seq<u8>>, Seq<char>>(Seq::empty())));
    assert(all.drop_last() =~= outcomes);
    lemma_latest_distinct(outcomes);
    let prev = latest_ballots(outcomes);
    let latest = latest_ballots(all);
    if has_voter(prev, voter) {
        let p = voter_pos(prev, voter);
        if has_voter(latest, voter) {
            let j = choose|j: int| 0 <= j < latest.len() && latest[j].0 == voter;
            let jj = if j < p { j } else { j + 1 };
            assert(latest[j] == prev[jj]);
        }
    }
}

/// A ballot that fails to decrypt changes no one's standing.
pub proof fn lemma_failed_ballot_ignored(
    outcomes: Seq<(Seq<char>, Result<Seq<Seq<u8>>, Seq<char>>)>,
    voter: Seq<char>,
    error: Seq<char>,
)
    ensures
        latest_ballots(outcomes.push((voter, Err(error)))) == latest_ballots(outcomes),
{
    let all = outcomes.push((voter, Err::<Seq<Seq<u8>>, Seq<char>>(error)));
    assert(all.drop_last() =~= outcomes);
}

} // verus!

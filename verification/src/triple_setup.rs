//! The one-time setup for triple generation.
//!
//! Every unordered pair of participants runs a batch random oblivious
//! transfer once; the resulting key material seeds an arbitrary number of
//! later extensions. The lower-numbered party of each pair plays the
//! extension sender, so both sides agree on the roles.

use vstd::prelude::*;
use crate::protocol::{Participant, Action, Protocol, ProtocolError, InitializationError, MessageData};
use crate::participants::ParticipantList;
use crate::bits::{BitVector, SquareBitMatrix};
use crate::batch_random_ot::{BatchRandomOtSender, BatchRandomOtReceiver, batch_random_ot_sender, batch_random_ot_receiver};
use crate::keyshare::has_duplicates;

verus! {

/// The key material one pair of parties shares, named after the role this
/// party plays in later extensions.
#[derive(Debug, Clone)]
pub enum SingleSetup {
    /// The extension sender holds its choice bits and the chosen matrix.
    Sender(BitVector, SquareBitMatrix),
    /// The extension receiver holds both base matrices.
    Receiver(SquareBitMatrix, SquareBitMatrix),
}

/// The setup a party needs to generate triples with a list of others: one
/// `SingleSetup` per counterparty.
#[derive(Debug, Clone)]
pub struct Setup {
    pub setups: Vec<(Participant, SingleSetup)>,
}

impl Setup {
    /// The counterparties this setup covers.
    pub open spec fn covered(self) -> Seq<Participant> {
        self.setups@.map_values(|t: (Participant, SingleSetup)| t.0)
    }

    /// Whether this setup has key material for every other member of a
    /// participant list.
    pub fn can_be_used_for(&self, me: Participant, participants: &ParticipantList)
        -> (r: bool)
        ensures
            r == (forall|k: int| 0 <= k < participants.members().len()
                ==> (participants.members()[k] == me
                    || self.covered().contains(participants.members()[k]))),
    {
        let n = participants.len();
        let mut i: usize = 0;
        while i < n
            invariant
                n == participants.members().len(),
                i <= n,
                forall|k: int| 0 <= k < i ==> (participants.members()[k] == me
                    || self.covered().contains(participants.members()[k])),
            decreases n - i,
        {
            let p = participants.get(i);
            if p != me {
                if !self.holds_for(p) {
                    proof {
                        assert(!(participants.members()[i as int] == me));
                    }
                    return false;
                }
            }
            i = i + 1;
        }
        true
    }

    /// Whether this setup has key material for one participant.
    pub fn holds_for(&self, p: Participant) -> (r: bool)
        ensures
            r == self.covered().contains(p),
    {
        let mut i: usize = 0;
        while i < self.setups.len()
            invariant
                i <= self.setups@.len(),
                forall|k: int| 0 <= k < i ==> self.covered()[k] != p,
            decreases self.setups@.len() - i,
        {
            if self.setups[i].0 == p {
                proof {
                    assert(self.covered()[i as int] == p);
                }
                return true;
            }
            i = i + 1;
        }
        proof {
            if self.covered().contains(p) {
                let k = choose|k: int|
                    0 <= k < self.covered().len() && self.covered()[k] == p;
            }
        }
        false
    }
}

/// One counterparty's base transfer within the setup.
enum SetupPipeline {
    Sender(BatchRandomOtReceiver),
    Receiver(BatchRandomOtSender),
    Finished(SingleSetup),
}

/// The setup protocol: run a batch random OT with every other
/// participant, the lower-numbered party of each pair taking the
/// extension sender's role.
pub struct SetupProtocol {
    pipelines: Vec<(Participant, SetupPipeline)>,
    done: bool,
}

/// Start the setup for this party.
///
/// Fails exactly when the list holds a duplicate or `me` is not in it.
pub fn setup(participants: &Vec<Participant>, me: Participant)
    -> (r: Result<SetupProtocol, InitializationError>)
    ensures
        r is Err <==> (has_duplicates(participants@) || !participants@.contains(me)),
{
    let list = match ParticipantList::new(participants) {
        Some(l) => l,
        None => {
            proof {
                assert(has_duplicates(participants@));
            }
            return Err(InitializationError::BadParameters(String::from_str(
                "participant list cannot contain duplicates",
            )));
        }
    };
    if !list.contains(me) {
        proof {
            if participants@.contains(me) {
                let k = choose|k: int|
                    0 <= k < participants@.len() && participants@[k] == me;
                assert(participants@.to_set().contains(me));
                assert(list.members().to_set().contains(me));
                let m = choose|m: int|
                    0 <= m < list.members().len() && list.members()[m] == me;
            }
        }
        return Err(InitializationError::BadParameters(String::from_str(
            "participant list must contain this participant",
        )));
    }
    proof {
        let k = choose|k: int|
            0 <= k < list.members().len() && list.members()[k] == me;
        assert(list.members().to_set().contains(me));
        assert(participants@.to_set().contains(me));
    }
    let others = list.others(me);
    let mut pipelines: Vec<(Participant, SetupPipeline)> = Vec::new();
    let mut i: usize = 0;
    while i < others.len()
        decreases others@.len() - i,
    {
        let p = others[i];
        let pipeline = if me.id() < p.id() {
            SetupPipeline::Sender(batch_random_ot_receiver(me, p, 0))
        } else {
            SetupPipeline::Receiver(batch_random_ot_sender(me, p, 0))
        };
        pipelines.push((p, pipeline));
        i = i + 1;
    }
    Ok(SetupProtocol { pipelines, done: false })
}

impl SetupProtocol {
    fn poke_machine(&mut self) -> (r: Result<Action<Setup>, ProtocolError>) {
        if self.done {
            return Ok(Action::Wait);
        }
        let n = self.pipelines.len();
        let mut i: usize = 0;
        let mut all_finished = true;
        while i < n
            invariant
                n == self.pipelines@.len(),
                i <= n,
            decreases n - i,
        {
            let who = self.pipelines[i].0;
            let placeholder = SingleSetup::Sender(BitVector::zero(),
                SquareBitMatrix { matrix: crate::bits::BitMatrix::from_rows(Vec::new()) });
            let mut state = SetupPipeline::Finished(placeholder);
            let slot = &mut self.pipelines[i].1;
            std::mem::swap(&mut state, slot);
            match state {
                SetupPipeline::Sender(mut p) => {
                    match p.poke() {
                        Ok(Action::Return((delta, k))) => {
                            self.pipelines.set(i, (who,
                                SetupPipeline::Finished(SingleSetup::Sender(delta, k))));
                        }
                        Ok(Action::Wait) => {
                            self.pipelines.set(i, (who, SetupPipeline::Sender(p)));
                            all_finished = false;
                        }
                        Ok(Action::SendMany(m)) => {
                            self.pipelines.set(i, (who, SetupPipeline::Sender(p)));
                            return Ok(Action::SendMany(m));
                        }
                        Ok(Action::SendPrivate(to, m)) => {
                            self.pipelines.set(i, (who, SetupPipeline::Sender(p)));
                            return Ok(Action::SendPrivate(to, m));
                        }
                        Err(e) => {
                            self.done = true;
                            return Err(e);
                        }
                    }
                }
                SetupPipeline::Receiver(mut p) => {
                    match p.poke() {
                        Ok(Action::Return((k0, k1))) => {
                            self.pipelines.set(i, (who,
                                SetupPipeline::Finished(SingleSetup::Receiver(k0, k1))));
                        }
                        Ok(Action::Wait) => {
                            self.pipelines.set(i, (who, SetupPipeline::Receiver(p)));
                            all_finished = false;
                        }
                        Ok(Action::SendMany(m)) => {
                            self.pipelines.set(i, (who, SetupPipeline::Receiver(p)));
                            return Ok(Action::SendMany(m));
                        }
                        Ok(Action::SendPrivate(to, m)) => {
                            self.pipelines.set(i, (who, SetupPipeline::Receiver(p)));
                            return Ok(Action::SendPrivate(to, m));
                        }
                        Err(e) => {
                            self.done = true;
                            return Err(e);
                        }
                    }
                }
                SetupPipeline::Finished(s) => {
                    self.pipelines.set(i, (who, SetupPipeline::Finished(s)));
                }
            }
            i = i + 1;
        }
        if all_finished {
            let mut setups: Vec<(Participant, SingleSetup)> = Vec::new();
            let mut j: usize = 0;
            while j < self.pipelines.len()
                decreases self.pipelines@.len() - j,
            {
                match &self.pipelines[j].1 {
                    SetupPipeline::Finished(s) => {
                        setups.push((self.pipelines[j].0, s.clone()));
                    }
                    _ => {}
                }
                j = j + 1;
            }
            self.done = true;
            return Ok(Action::Return(Setup { setups }));
        }
        Ok(Action::Wait)
    }
}

impl Protocol for SetupProtocol {
    type Output = Setup;

    fn poke(&mut self) -> Result<Action<Setup>, ProtocolError> {
        self.poke_machine()
    }

    fn message(&mut self, from: Participant, data: MessageData) {
        let n = self.pipelines.len();
        let mut i: usize = 0;
        while i < n
            invariant
                n == self.pipelines@.len(),
                i <= n,
            decreases n - i,
        {
            if self.pipelines[i].0 == from {
                let who = self.pipelines[i].0;
                let placeholder = SingleSetup::Sender(BitVector::zero(),
                    SquareBitMatrix {
                        matrix: crate::bits::BitMatrix::from_rows(Vec::new()),
                    });
                let mut state = SetupPipeline::Finished(placeholder);
                let slot = &mut self.pipelines[i].1;
                std::mem::swap(&mut state, slot);
                match state {
                    SetupPipeline::Sender(mut p) => {
                        p.message(from, data);
                        self.pipelines.set(i, (who, SetupPipeline::Sender(p)));
                    }
                    SetupPipeline::Receiver(mut p) => {
                        p.message(from, data);
                        self.pipelines.set(i, (who, SetupPipeline::Receiver(p)));
                    }
                    SetupPipeline::Finished(s) => {
                        self.pipelines.set(i, (who, SetupPipeline::Finished(s)));
                    }
                }
                return;
            }
            i = i + 1;
        }
    }
}

} // verus!

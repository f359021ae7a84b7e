//! Publishing a snapshot to the message broker.
//!
//! A session is opened, the three quantities are sent as three messages in
//! the fixed order temperature, humidity, pressure, each on its own topic,
//! and the session is closed. [`PublishStage`] sequences this; the first
//! failure ends it and the remaining messages are not sent.

use vstd::prelude::*;
use crate::sensor::{Measurement, Quantity};

verus! {

/// The topic on which a quantity is published.
pub open spec fn topic_of(quantity: Quantity) -> Seq<char> {
    match quantity {
        Quantity::Temperature => "home/temperature"@,
        Quantity::Humidity => "home/humidity"@,
        Quantity::Pressure => "home/pressure"@,
    }
}

/// The topic on which a quantity is published.
pub fn topic(quantity: Quantity) -> (name: &'static str)
    ensures
        name@ == topic_of(quantity),
{
    match quantity {
        Quantity::Temperature => "home/temperature",
        Quantity::Humidity => "home/humidity",
        Quantity::Pressure => "home/pressure",
    }
}

/// How hard the broker is asked to try.
#[derive(Clone, Copy, Debug, PartialEq, Eq)]
pub enum Delivery {
    /// The message may be lost but never arrives twice.
    AtMostOnce,
    AtLeastOnce,
    ExactlyOnce,
}

/// One message to the broker. The payload is the decimal text of the value.
#[derive(Debug, PartialEq, Eq)]
pub struct OutboundMessage {
    pub quantity: Quantity,
    pub payload: String,
    pub delivery: Delivery,
    pub retain: bool,
}

impl Clone for OutboundMessage {
    fn clone(&self) -> (copy: Self)
        ensures
            copy == *self,
    {
        OutboundMessage {
            quantity: self.quantity,
            payload: self.payload.clone(),
            delivery: self.delivery,
            retain: self.retain,
        }
    }
}

impl OutboundMessage {
    /// The topic the message goes to.
    pub fn topic(&self) -> (name: &'static str)
        ensures
            name@ == topic_of(self.quantity),
    {
        topic(self.quantity)
    }
}

/// The message for one quantity of a snapshot: its decimal text, delivered
/// at most once and not retained.
pub open spec fn message_of(measurement: Measurement, quantity: Quantity) -> OutboundMessage {
    OutboundMessage {
        quantity,
        payload: measurement.value_of(quantity),
        delivery: Delivery::AtMostOnce,
        retain: false,
    }
}

/// The message for one quantity of a snapshot.
pub fn message(measurement: &Measurement, quantity: Quantity) -> (message: OutboundMessage)
    ensures
        message == message_of(*measurement, quantity),
{
    OutboundMessage {
        quantity,
        payload: measurement.value(quantity),
        delivery: Delivery::AtMostOnce,
        retain: false,
    }
}

/// One transaction with the broker.
#[derive(Debug, PartialEq, Eq)]
pub enum PublishAction {
    /// Open the session; its listener for inbound messages starts with it.
    Open,
    /// Send one message.
    Send(OutboundMessage),
    /// Close the session.
    Close,
}

impl Clone for PublishAction {
    fn clone(&self) -> (copy: Self)
        ensures
            copy == *self,
    {
        match self {
            PublishAction::Open => PublishAction::Open,
            PublishAction::Send(message) => PublishAction::Send(message.clone()),
            PublishAction::Close => PublishAction::Close,
        }
    }
}

/// Why a snapshot was not published in full.
#[derive(Clone, Copy, Debug, PartialEq, Eq)]
pub enum PublishError {
    /// The session could not be opened.
    ConnectFailed,
    /// A message could not be sent.
    SendFailed,
}

/// The whole publication of a snapshot, transaction by transaction.
pub open spec fn script_of(measurement: Measurement) -> Seq<PublishAction> {
    seq![
        PublishAction::Open,
        PublishAction::Send(message_of(measurement, Quantity::Temperature)),
        PublishAction::Send(message_of(measurement, Quantity::Humidity)),
        PublishAction::Send(message_of(measurement, Quantity::Pressure)),
        PublishAction::Close,
    ]
}

/// How far a publication has come. `Closed` and `Failed` are final.
#[derive(Clone, Copy, Debug, PartialEq, Eq)]
pub enum PublishStage {
    Opening,
    Sending(Quantity),
    Closing,
    Closed,
    Failed(PublishError),
}

impl PublishStage {
    /// The publication is over.
    pub open spec fn terminal(self) -> bool {
        self is Closed || self is Failed
    }

    /// The transaction that is outstanding at this stage.
    pub open spec fn action_of(self, measurement: Measurement) -> Option<PublishAction> {
        match self {
            PublishStage::Opening => Some(PublishAction::Open),
            PublishStage::Sending(quantity) => Some(
                PublishAction::Send(message_of(measurement, quantity)),
            ),
            PublishStage::Closing => Some(PublishAction::Close),
            PublishStage::Closed => None,
            PublishStage::Failed(_) => None,
        }
    }

    /// The stage that follows once the outstanding transaction has ended,
    /// well (`done`) or not. Closing cannot fail; nothing follows a final
    /// stage.
    pub open spec fn after(self, done: bool) -> PublishStage {
        match self {
            PublishStage::Opening => if done {
                PublishStage::Sending(Quantity::Temperature)
            } else {
                PublishStage::Failed(PublishError::ConnectFailed)
            },
            PublishStage::Sending(quantity) => if !done {
                PublishStage::Failed(PublishError::SendFailed)
            } else {
                match quantity.successor() {
                    Some(following) => PublishStage::Sending(following),
                    None => PublishStage::Closing,
                }
            },
            PublishStage::Closing => PublishStage::Closed,
            PublishStage::Closed => self,
            PublishStage::Failed(_) => self,
        }
    }

    /// The result of the publication, once it is over.
    pub open spec fn outcome_of(self) -> Option<Result<(), PublishError>> {
        match self {
            PublishStage::Closed => Some(Ok(())),
            PublishStage::Failed(reason) => Some(Err(reason)),
            _ => None,
        }
    }

    /// The stage a publication starts in.
    pub fn first() -> (stage: Self)
        ensures
            stage == PublishStage::Opening,
    {
        PublishStage::Opening
    }

    /// Whether the publication is over.
    pub fn is_terminal(&self) -> (yes: bool)
        ensures
            yes == self.terminal(),
    {
        match self {
            PublishStage::Closed => true,
            PublishStage::Failed(_) => true,
            _ => false,
        }
    }

    /// The transaction to carry out at this stage, `None` once the
    /// publication is over.
    pub fn action(&self, measurement: &Measurement) -> (action: Option<PublishAction>)
        ensures
            action == self.action_of(*measurement),
    {
        match self {
            PublishStage::Opening => Some(PublishAction::Open),
            PublishStage::Sending(quantity) => Some(
                PublishAction::Send(message(measurement, *quantity)),
            ),
            PublishStage::Closing => Some(PublishAction::Close),
            PublishStage::Closed => None,
            PublishStage::Failed(_) => None,
        }
    }

    /// Moves on after the outstanding transaction has ended.
    pub fn advance(self, done: bool) -> (next: Self)
        ensures
            next == self.after(done),
    {
        match self {
            PublishStage::Opening => if done {
                PublishStage::Sending(Quantity::Temperature)
            } else {
                PublishStage::Failed(PublishError::ConnectFailed)
            },
            PublishStage::Sending(quantity) => if !done {
                PublishStage::Failed(PublishError::SendFailed)
            } else {
                match quantity.next() {
                    Some(following) => PublishStage::Sending(following),
                    None => PublishStage::Closing,
                }
            },
            PublishStage::Closing => PublishStage::Closed,
            PublishStage::Closed => self,
            PublishStage::Failed(_) => self,
        }
    }

    /// `Ok` once the session is closed after the third message, the error
    /// once the publication failed, `None` while it is still running.
    pub fn outcome(&self) -> (result: Option<Result<(), PublishError>>)
        ensures
            result == self.outcome_of(),
    {
        match self {
            PublishStage::Closed => Some(Ok(())),
            PublishStage::Failed(reason) => Some(Err(*reason)),
            _ => None,
        }
    }
}

/// The stage reached after the transactions ended with `outcomes`, in
/// order.
pub open spec fn stage_after(outcomes: Seq<bool>) -> PublishStage
    decreases outcomes.len(),
{
    if outcomes.len() == 0 {
        PublishStage::Opening
    } else {
        stage_after(outcomes.drop_last()).after(outcomes.last())
    }
}

/// The transactions asked for while the earlier ones ended with
/// `outcomes`, the first one included.
pub open spec fn actions_issued(measurement: Measurement, outcomes: Seq<bool>) -> Seq<PublishAction>
    decreases outcomes.len(),
{
    if outcomes.len() == 0 {
        seq![PublishAction::Open]
    } else {
        let earlier = actions_issued(measurement, outcomes.drop_last());
        match stage_after(outcomes).action_of(measurement) {
            Some(action) => earlier.push(action),
            None => earlier,
        }
    }
}

/// The number of transactions asked for by the time a stage is reached.
pub open spec fn issued_at(stage: PublishStage, count: nat) -> bool {
    match stage {
        PublishStage::Opening => count == 1,
        PublishStage::Sending(quantity) => count == quantity.rank() + 2,
        PublishStage::Closing => count == 5,
        PublishStage::Closed => count == 5,
        PublishStage::Failed(PublishError::ConnectFailed) => count == 1,
        PublishStage::Failed(PublishError::SendFailed) => 2 <= count <= 4,
    }
}

/// Whatever the outcomes, the transactions come in the order of the script:
/// the session is opened, then temperature, humidity and pressure are sent
/// to their topics with the decimal text of the snapshot as payload, then
/// the session is closed. Once the third message went through, all three
/// were sent; after a failure the remaining ones were not.
pub proof fn lemma_messages_follow_script(measurement: Measurement, outcomes: Seq<bool>)
    ensures
        actions_issued(measurement, outcomes) == script_of(measurement).take(
            actions_issued(measurement, outcomes).len() as int,
        ),
        issued_at(stage_after(outcomes), actions_issued(measurement, outcomes).len()),
    decreases outcomes.len(),
{
    let script = script_of(measurement);
    if outcomes.len() == 0 {
        assert(seq![PublishAction::Open] == script.take(1));
    } else {
        lemma_messages_follow_script(measurement, outcomes.drop_last());
        assert(script.take(1).push(script[1]) == script.take(2));
        assert(script.take(2).push(script[2]) == script.take(3));
        assert(script.take(3).push(script[3]) == script.take(4));
        assert(script.take(4).push(script[4]) == script.take(5));
    }
}

/// Three successful publishes after a successful open have sent exactly the
/// three messages of the snapshot, in the fixed order.
pub proof fn lemma_three_publishes_send_snapshot(measurement: Measurement, outcomes: Seq<bool>)
    requires
        stage_after(outcomes) is Closing || stage_after(outcomes) is Closed,
    ensures
        actions_issued(measurement, outcomes) == script_of(measurement),
{
    lemma_messages_follow_script(measurement, outcomes);
    assert(script_of(measurement).take(5) == script_of(measurement));
}

} // verus!

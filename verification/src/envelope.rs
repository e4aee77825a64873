//! The request that asks a metrics tracker to delete, pause, set up or
//! resume the tracking of an attribute.

use crate::identity::ActorId;
use crate::identity::Callback;
use crate::identity::CallbackView;
use crate::natural::number_view;
use crate::natural::Natural;
use vstd::prelude::*;
use vstd::string::StringExecFns;

verus! {

/// The unit in which a polling frequency counts.
#[derive(Clone, Copy, Debug, PartialEq, Eq)]
pub enum Period {
    Day,
    Hour,
    Minute,
}

/// How often the tracker is asked to poll: every `n` periods, with `n` at
/// least one. The tracker is free to poll at another pace.
#[derive(Debug, PartialEq, Eq)]
pub struct Frequency {
    n: Natural,
    period: Period,
}

/// What a `Frequency` is, in plain values.
pub struct FrequencyView {
    pub n: nat,
    pub period: Period,
}

impl View for Frequency {
    type V = FrequencyView;

    closed spec fn view(&self) -> FrequencyView {
        FrequencyView { n: self.n@, period: self.period }
    }
}

impl Clone for Frequency {
    fn clone(&self) -> (copy: Self)
        ensures
            copy@ == self@,
            copy.wf(),
    {
        proof {
            use_type_invariant(self);
        }
        Frequency { n: self.n.clone(), period: self.period }
    }
}

impl Frequency {
    /// The count of a frequency is positive.
    pub open spec fn wf(&self) -> bool {
        self@.n > 0
    }

    #[verifier::type_invariant]
    spec fn counts_at_least_one(&self) -> bool {
        self.n@ > 0
    }

    /// Every `n` periods, unless `n` is zero.
    pub fn new(n: Natural, period: Period) -> (frequency: Option<Frequency>)
        ensures
            match frequency {
                Some(frequency) => frequency@ == (FrequencyView { n: n@, period })
                    && frequency.wf(),
                None => n@ == 0,
            },
    {
        if n.is_zero() {
            None
        } else {
            Some(Frequency { n, period })
        }
    }

    /// The count.
    pub fn n(&self) -> (n: &Natural)
        ensures
            n@ == self@.n,
            n@ > 0,
    {
        proof {
            use_type_invariant(self);
        }
        &self.n
    }

    /// The unit.
    pub fn period(&self) -> (period: Period)
        ensures
            period == self@.period,
    {
        self.period
    }
}

/// What `frequency` is in plain values, if there is one.
pub open spec fn frequency_view(frequency: Option<Frequency>) -> Option<FrequencyView> {
    match frequency {
        Some(frequency) => Some(frequency@),
        None => None,
    }
}

/// The characters of `text`, if there is one.
pub open spec fn text_view(text: Option<String>) -> Option<Seq<char>> {
    match text {
        Some(text) => Some(text@),
        None => None,
    }
}

/// An attribute as the tracker is to know it: its name, a word about it,
/// the operation that yields its value, and how often to ask. Once made, a
/// description does not change.
#[derive(Debug, PartialEq, Eq)]
pub struct AttributeDescription {
    description: Option<String>,
    getter: Callback,
    name: String,
    polling_frequency: Option<Frequency>,
}

/// What an `AttributeDescription` is, in plain values.
pub struct AttributeDescriptionView {
    pub description: Option<Seq<char>>,
    pub getter: CallbackView,
    pub name: Seq<char>,
    pub polling_frequency: Option<FrequencyView>,
}

impl View for AttributeDescription {
    type V = AttributeDescriptionView;

    closed spec fn view(&self) -> AttributeDescriptionView {
        AttributeDescriptionView {
            description: text_view(self.description),
            getter: self.getter@,
            name: self.name@,
            polling_frequency: frequency_view(self.polling_frequency),
        }
    }
}

impl Clone for AttributeDescription {
    fn clone(&self) -> (copy: Self)
        ensures
            copy@ == self@,
    {
        AttributeDescription {
            description: match &self.description {
                Some(text) => Some(text.clone()),
                None => None,
            },
            getter: self.getter.clone(),
            name: self.name.clone(),
            polling_frequency: match &self.polling_frequency {
                Some(frequency) => Some(frequency.clone()),
                None => None,
            },
        }
    }
}

impl AttributeDescription {
    /// The description made of these four.
    pub fn new(
        name: String,
        description: Option<String>,
        getter: Callback,
        polling_frequency: Option<Frequency>,
    ) -> (made: AttributeDescription)
        ensures
            made@ == (AttributeDescriptionView {
                description: text_view(description),
                getter: getter@,
                name: name@,
                polling_frequency: frequency_view(polling_frequency),
            }),
    {
        AttributeDescription { description, getter, name, polling_frequency }
    }

    /// The name of the attribute.
    pub fn name(&self) -> (name: &String)
        ensures
            name@ == self@.name,
    {
        &self.name
    }

    /// A word about the attribute, where one was given.
    pub fn description(&self) -> (description: &Option<String>)
        ensures
            text_view(*description) == self@.description,
    {
        &self.description
    }

    /// The operation that yields the value of the attribute.
    pub fn getter(&self) -> (getter: &Callback)
        ensures
            getter@ == self@.getter,
    {
        &self.getter
    }

    /// How often the tracker is asked to poll, where that was said.
    pub fn polling_frequency(&self) -> (frequency: &Option<Frequency>)
        ensures
            frequency_view(*frequency) == self@.polling_frequency,
    {
        &self.polling_frequency
    }
}

/// What the tracker is asked to do with an attribute.
#[derive(Debug, PartialEq, Eq)]
pub enum Action {
    Delete,
    Pause,
    SetUp(AttributeDescription),
    Unpause,
}

/// What an `Action` is, in plain values.
pub enum ActionView {
    Delete,
    Pause,
    SetUp(AttributeDescriptionView),
    Unpause,
}

impl View for Action {
    type V = ActionView;

    open spec fn view(&self) -> ActionView {
        match *self {
            Action::Delete => ActionView::Delete,
            Action::Pause => ActionView::Pause,
            Action::SetUp(description) => ActionView::SetUp(description@),
            Action::Unpause => ActionView::Unpause,
        }
    }
}

impl Clone for Action {
    fn clone(&self) -> (copy: Self)
        ensures
            copy@ == self@,
    {
        match self {
            Action::Delete => Action::Delete,
            Action::Pause => Action::Pause,
            Action::SetUp(description) => Action::SetUp(description.clone()),
            Action::Unpause => Action::Unpause,
        }
    }
}

/// One request to the tracker: the attribute it is about, where the tracker
/// has given it a number already, and the action.
#[allow(non_snake_case)]
#[derive(Debug, PartialEq, Eq)]
pub struct TrackerRequest {
    pub attributeId: Option<Natural>,
    pub action: Action,
}

/// What a `TrackerRequest` is, in plain values.
pub struct TrackerRequestView {
    pub attribute_id: Option<nat>,
    pub action: ActionView,
}

impl View for TrackerRequest {
    type V = TrackerRequestView;

    open spec fn view(&self) -> TrackerRequestView {
        TrackerRequestView {
            attribute_id: number_view(self.attributeId),
            action: self.action@,
        }
    }
}

impl Clone for TrackerRequest {
    fn clone(&self) -> (copy: Self)
        ensures
            copy@ == self@,
    {
        TrackerRequest {
            attributeId: match &self.attributeId {
                Some(number) => Some(number.clone()),
                None => None,
            },
            action: self.action.clone(),
        }
    }
}

impl TrackerRequest {
    /// The request that carries `attribute_id` and `action` as they are.
    pub fn build(attribute_id: Option<Natural>, action: Action) -> (request: TrackerRequest)
        ensures
            request.attributeId == attribute_id,
            request.action == action,
    {
        TrackerRequest { attributeId: attribute_id, action }
    }
}

/// The description under which the counter registers itself: as
/// "rust-counter", polled every five minutes through the operation `get` of
/// the actor `own`.
pub open spec fn counter_description(own: Seq<u8>) -> AttributeDescriptionView {
    AttributeDescriptionView {
        description: Some("A demo from rust"@),
        getter: CallbackView { target: own, method: "get"@ },
        name: "rust-counter"@,
        polling_frequency: Some(FrequencyView { n: 5, period: Period::Minute }),
    }
}

/// Builds `counter_description(own@)`.
pub fn describe_counter(own: ActorId) -> (description: AttributeDescription)
    ensures
        description@ == counter_description(own@),
{
    AttributeDescription::new(
        String::from_str("rust-counter"),
        Some(String::from_str("A demo from rust")),
        Callback { target: own, method: String::from_str("get") },
        Frequency::new(Natural::from_u64(5), Period::Minute),
    )
}

} // verus!

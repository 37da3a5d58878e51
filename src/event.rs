use vstd::prelude::*;

verus! {

/// A message that travels to or from the broker.
#[derive(Clone, Debug, PartialEq)]
pub struct MqttMessageEvent {
    pub topic: String,
    pub message: String,
}

impl MqttMessageEvent {
    pub fn new(topic: &str, message: &str) -> (r: MqttMessageEvent)
        ensures
            r.topic@ == topic@,
            r.message@ == message@,
    {
        MqttMessageEvent { topic: String::from_str(topic), message: String::from_str(message) }
    }
}

/// Everything that travels on the bus.
#[derive(Clone, Debug, PartialEq)]
pub enum Event {
    MqttMessageReceive(MqttMessageEvent),
    MqttMessageSend(MqttMessageEvent),
    SetTxPowerEnable(bool),
    TxPowerEnableStateChanged(bool),
    TxPowerStateChanged(bool),
    SetPttEnable(bool),
    PttEnableStateChanged(bool),
    PttStateChanged(bool),
    SendStatus(Option<String>),
    Exit,
}

/// An event with its strings seen as character sequences.
pub enum EventView {
    MqttMessageReceive { topic: Seq<char>, message: Seq<char> },
    MqttMessageSend { topic: Seq<char>, message: Seq<char> },
    SetTxPowerEnable(bool),
    TxPowerEnableStateChanged(bool),
    TxPowerStateChanged(bool),
    SetPttEnable(bool),
    PttEnableStateChanged(bool),
    PttStateChanged(bool),
    SendStatus(Option<Seq<char>>),
    Exit,
}

pub open spec fn opt_view(o: Option<String>) -> Option<Seq<char>> {
    match o {
        Some(s) => Some(s@),
        None => None,
    }
}

impl View for Event {
    type V = EventView;

    open spec fn view(&self) -> EventView {
        match self {
            Event::MqttMessageReceive(m) => EventView::MqttMessageReceive {
                topic: m.topic@,
                message: m.message@,
            },
            Event::MqttMessageSend(m) => EventView::MqttMessageSend {
                topic: m.topic@,
                message: m.message@,
            },
            Event::SetTxPowerEnable(b) => EventView::SetTxPowerEnable(*b),
            Event::TxPowerEnableStateChanged(b) => EventView::TxPowerEnableStateChanged(*b),
            Event::TxPowerStateChanged(b) => EventView::TxPowerStateChanged(*b),
            Event::SetPttEnable(b) => EventView::SetPttEnable(*b),
            Event::PttEnableStateChanged(b) => EventView::PttEnableStateChanged(*b),
            Event::PttStateChanged(b) => EventView::PttStateChanged(*b),
            Event::SendStatus(m) => EventView::SendStatus(opt_view(*m)),
            Event::Exit => EventView::Exit,
        }
    }
}

/// The view of each event of a sequence.
pub open spec fn views(s: Seq<Event>) -> Seq<EventView> {
    s.map_values(|e: Event| e@)
}

pub proof fn lemma_views_push(s: Seq<Event>, e: Event)
    ensures
        views(s.push(e)) == views(s).push(e@),
{
    assert(views(s.push(e)) =~= views(s).push(e@));
}

pub proof fn lemma_views_empty()
    ensures
        views(Seq::<Event>::empty()) == Seq::<EventView>::empty(),
{
    assert(views(Seq::<Event>::empty()) =~= Seq::<EventView>::empty());
}

} // verus!

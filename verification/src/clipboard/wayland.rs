//! The Wayland engine: the data-control protocol as state machines.
//!
//! The machines decide; the caller holds the connection, hands each event
//! of a data-control object to its machine, and does what the machine
//! answers.

use crate::clipboard::backend::{ClipError, CopyConfig, PasteConfig};
use crate::clipboard::mime_type::{choose_paste_type, paste_choice};
use crate::protocol::source_data::{
    all_mime_types, find_item, SourceData, SourceDataItem, SourceItemView,
};
use std::collections::HashMap;
use std::rc::Rc;
use vstd::prelude::*;

verus! {

broadcast use vstd::std_specs::hash::group_hash_axioms;

/// An event of the data-control device.
#[allow(inconsistent_fields)]
#[derive(Debug, PartialEq, Eq)]
pub enum DeviceEvent {
    /// The server introduces an offer.
    DataOffer { offer: u32 },
    /// An offer names one of its types; the name is absent where it is not
    /// UTF-8.
    Offer { offer: u32, mime_type: Option<String> },
    /// The clipboard has the given offer, or none.
    Selection { offer: Option<u32> },
    /// The primary selection has the given offer, or none.
    PrimarySelection { offer: Option<u32> },
    /// The device was destroyed.
    Finished,
}

/// Where a paste stands.
#[derive(Debug, Clone, Copy, PartialEq, Eq)]
pub enum PasteEventStage {
    /// The paste is over: the selection is empty.
    Done,
    /// The paste has failed.
    Failed(ClipError),
    /// Offers are taken down; the selection is not known yet.
    CollectingOffers,
    /// The selection has the given offer.
    GotSelection(u32),
}

/// The state of a paste: the offers that the server introduced, each with
/// the type names that it named so far.
pub struct PasteEventState {
    offers: HashMap<u32, Vec<String>>,
    stage: PasteEventStage,
    config: PasteConfig,
}

/// The state of a paste as contracts see it.
pub struct PasteEventView {
    /// The type names of each offer, in the order in which it named them.
    pub offers: Map<u32, Seq<Seq<char>>>,
    /// Where the paste stands.
    pub stage: PasteEventStage,
    /// Whether the paste only lists the type names on offer.
    pub list_types_only: bool,
    /// Whether the primary selection is read, not the clipboard.
    pub use_primary: bool,
    /// The type name asked for.
    pub expected_mime_type: Seq<char>,
}

/// What a paste does once the events have settled it.
#[derive(Debug, PartialEq, Eq)]
pub enum PastePlan {
    /// Go on with the events.
    Wait,
    /// End well, without output.
    Nothing,
    /// Write each name on a line of its own, and end well.
    ListTypes { mime_types: Vec<String> },
    /// Ask the offer for its content as `mime_type`, and write all of it.
    Receive { offer: u32, mime_type: String },
    /// End with the failure.
    Fail { error: ClipError },
}

/// A plan as contracts see it.
pub enum PastePlanView {
    Wait,
    Nothing,
    ListTypes { mime_types: Seq<Seq<char>> },
    Receive { offer: u32, mime_type: Seq<char> },
    Fail { error: ClipError },
}

impl View for PastePlan {
    type V = PastePlanView;

    open spec fn view(&self) -> PastePlanView {
        match *self {
            PastePlan::Wait => PastePlanView::Wait,
            PastePlan::Nothing => PastePlanView::Nothing,
            PastePlan::ListTypes { mime_types } => PastePlanView::ListTypes {
                mime_types: mime_types.deep_view(),
            },
            PastePlan::Receive { offer, mime_type } => PastePlanView::Receive {
                offer,
                mime_type: mime_type@,
            },
            PastePlan::Fail { error } => PastePlanView::Fail { error },
        }
    }
}

impl PasteEventView {
    /// The paste is over, well or not.
    pub open spec fn over(self) -> bool {
        self.stage is Done || self.stage is Failed
    }

    /// The selection that is read has the given offer, or none.
    pub open spec fn on_selection(self, offer: Option<u32>) -> PasteEventView {
        match offer {
            Some(id) => PasteEventView { stage: PasteEventStage::GotSelection(id), ..self },
            None => PasteEventView { stage: PasteEventStage::Done, ..self },
        }
    }

    /// The state after an event.
    ///
    /// A new offer starts with no type names. Each type name that an offer
    /// reports is appended to the names of that offer; one for an offer that
    /// was not introduced, and one that is not UTF-8, is passed over. Of the
    /// two selections only the one that is read counts: it names the offer to
    /// read, or, with none, an empty clipboard. The end of the device is a
    /// failure.
    pub open spec fn step(self, event: DeviceEvent) -> PasteEventView {
        match event {
            DeviceEvent::DataOffer { offer } => PasteEventView {
                offers: self.offers.insert(offer, Seq::empty()),
                ..self
            },
            DeviceEvent::Offer { offer, mime_type } => match mime_type {
                Some(name) => if self.offers.contains_key(offer) {
                    PasteEventView {
                        offers: self.offers.insert(offer, self.offers[offer].push(name@)),
                        ..self
                    }
                } else {
                    self
                },
                None => self,
            },
            DeviceEvent::Selection { offer } => if self.use_primary {
                self
            } else {
                self.on_selection(offer)
            },
            DeviceEvent::PrimarySelection { offer } => if self.use_primary {
                self.on_selection(offer)
            } else {
                self
            },
            DeviceEvent::Finished => PasteEventView {
                stage: PasteEventStage::Failed(ClipError::ProtocolViolation),
                ..self
            },
        }
    }

    /// Whether the caller leaves its dispatch loop after the event: where
    /// the selection that is read has no offer, and at the end of the device.
    pub open spec fn breaks_loop(self, event: DeviceEvent) -> bool {
        match event {
            DeviceEvent::Selection { offer } => !self.use_primary && offer is None,
            DeviceEvent::PrimarySelection { offer } => self.use_primary && offer is None,
            DeviceEvent::Finished => true,
            _ => false,
        }
    }

    /// What the paste does at this stage.
    ///
    /// With the selection known, the type names of its offer are listed, or
    /// one of them is picked and read. An offer that was never introduced is
    /// a failure. Where nothing is picked the paste ends: without output, or,
    /// where one type was asked for by name, as a failure.
    pub open spec fn plan(self) -> PastePlanView {
        match self.stage {
            PasteEventStage::CollectingOffers => PastePlanView::Wait,
            PasteEventStage::Done => PastePlanView::Nothing,
            PasteEventStage::Failed(error) => PastePlanView::Fail { error },
            PasteEventStage::GotSelection(offer) => {
                if !self.offers.contains_key(offer) {
                    PastePlanView::Fail { error: ClipError::ProtocolViolation }
                } else if self.list_types_only {
                    PastePlanView::ListTypes { mime_types: self.offers[offer] }
                } else {
                    match paste_choice(self.expected_mime_type, self.offers[offer]) {
                        Ok(Some(mime_type)) => PastePlanView::Receive { offer, mime_type },
                        Ok(None) => PastePlanView::Nothing,
                        Err(_) => PastePlanView::Fail { error: ClipError::NoMatchingType },
                    }
                }
            },
        }
    }
}

impl View for PasteEventState {
    type V = PasteEventView;

    closed spec fn view(&self) -> PasteEventView {
        PasteEventView {
            offers: self.offers@.map_values(|names: Vec<String>| names.deep_view()),
            stage: self.stage,
            list_types_only: self.config.list_types_only,
            use_primary: self.config.use_primary,
            expected_mime_type: self.config.expected_mime_type@,
        }
    }
}

/// Starts a paste: no offer is known, and the selection is awaited.
pub fn paste_wayland(config: PasteConfig) -> (r: PasteEventState)
    ensures
        r@ == (PasteEventView {
            offers: Map::empty(),
            stage: PasteEventStage::CollectingOffers,
            list_types_only: config.list_types_only,
            use_primary: config.use_primary,
            expected_mime_type: config.expected_mime_type@,
        }),
{
    let r = PasteEventState {
        offers: HashMap::new(),
        stage: PasteEventStage::CollectingOffers,
        config,
    };
    assert(r@.offers =~= Map::empty());
    r
}

/// Takes an event of the data-control device. The result says whether the
/// caller leaves its dispatch loop.
pub fn wl_device_cb_for_paste(state: &mut PasteEventState, event: DeviceEvent) -> (r: bool)
    ensures
        final(state)@ == old(state)@.step(event),
        r == old(state)@.breaks_loop(event),
{
    let ghost before = state@;
    match event {
        DeviceEvent::DataOffer { offer } => {
            let fresh: Vec<String> = Vec::new();
            assert(fresh.deep_view() =~= Seq::<Seq<char>>::empty());
            state.offers.insert(offer, fresh);
            assert(state@.offers =~= before.offers.insert(offer, Seq::empty()));
            false
        },
        DeviceEvent::Offer { offer, mime_type } => {
            match mime_type {
                Some(name) => {
                    match state.offers.remove(&offer) {
                        Some(names) => {
                            let mut names = names;
                            let ghost old_names = names.deep_view();
                            names.push(name);
                            assert(names.deep_view() =~= old_names.push(name@));
                            state.offers.insert(offer, names);
                            assert(state@.offers =~= before.step(event).offers);
                        },
                        None => {
                            assert(state@.offers =~= before.offers);
                        },
                    }
                },
                None => {},
            }
            false
        },
        DeviceEvent::Selection { offer } => {
            if state.config.use_primary {
                false
            } else {
                state.on_selection(offer)
            }
        },
        DeviceEvent::PrimarySelection { offer } => {
            if state.config.use_primary {
                state.on_selection(offer)
            } else {
                false
            }
        },
        DeviceEvent::Finished => {
            state.stage = PasteEventStage::Failed(ClipError::ProtocolViolation);
            true
        },
    }
}

impl PasteEventState {
    /// Where the paste stands.
    pub fn stage(&self) -> (r: PasteEventStage)
        ensures
            r == self@.stage,
    {
        self.stage
    }

    fn on_selection(&mut self, offer: Option<u32>) -> (r: bool)
        ensures
            final(self)@ == old(self)@.on_selection(offer),
            r == (offer is None),
    {
        match offer {
            Some(id) => {
                self.stage = PasteEventStage::GotSelection(id);
                false
            },
            None => {
                self.stage = PasteEventStage::Done;
                true
            },
        }
    }

    /// What the paste does at this stage.
    pub fn plan(&self) -> (r: PastePlan)
        ensures
            r@ == self@.plan(),
    {
        match self.stage {
            PasteEventStage::CollectingOffers => PastePlan::Wait,
            PasteEventStage::Done => PastePlan::Nothing,
            PasteEventStage::Failed(error) => PastePlan::Fail { error },
            PasteEventStage::GotSelection(offer) => {
                match self.offers.get(&offer) {
                    None => PastePlan::Fail { error: ClipError::ProtocolViolation },
                    Some(supported_types) => {
                        if self.config.list_types_only {
                            PastePlan::ListTypes { mime_types: supported_types.clone() }
                        } else {
                            match choose_paste_type(
                                self.config.expected_mime_type.as_str(),
                                supported_types,
                            ) {
                                Ok(Some(mime_type)) => PastePlan::Receive { offer, mime_type },
                                Ok(None) => PastePlan::Nothing,
                                Err(_) => PastePlan::Fail { error: ClipError::NoMatchingType },
                            }
                        }
                    },
                }
            },
        }
    }
}

/// An event of the data source of a copy.
#[derive(Debug, PartialEq, Eq)]
pub enum SourceEvent {
    /// A client asks for the content as the given type; the name is absent
    /// where it is not UTF-8.
    Send { mime_type: Option<String> },
    /// Another client has taken the selection.
    Cancelled,
}

/// The state of a copy.
pub struct CopyEventState {
    finished: bool,
    source_data: Vec<SourceDataItem>,
}

/// The state of a copy as contracts see it.
pub struct CopyEventView {
    /// Whether the selection was taken by another client.
    pub finished: bool,
    /// The payload.
    pub items: Seq<SourceItemView>,
}

/// How a copy sets out.
pub struct CopyPlan {
    /// The type names that the data source offers, in this order.
    pub mime_types: Vec<String>,
    /// Whether the source becomes the primary selection, not the clipboard.
    pub use_primary: bool,
}

/// The bytes that are sent for a type name: the content of the first item
/// that goes by it, and no bytes where the name is absent or no item goes by
/// it.
pub open spec fn content_to_send(items: Seq<SourceItemView>, mime_type: Option<Seq<char>>) -> Seq<u8> {
    match mime_type {
        Some(name) => match find_item(items, name) {
            Some(i) => items[i].content,
            None => Seq::empty(),
        },
        None => Seq::empty(),
    }
}

impl CopyEventView {
    /// The state after an event: the loss of the selection ends the copy.
    pub open spec fn step(self, event: SourceEvent) -> CopyEventView {
        match event {
            SourceEvent::Send { mime_type } => self,
            SourceEvent::Cancelled => CopyEventView { finished: true, ..self },
        }
    }

    /// The bytes that answer an event: a copy that is not over answers each
    /// request for content; nothing else is answered.
    pub open spec fn reply(self, event: SourceEvent) -> Option<Seq<u8>> {
        match event {
            SourceEvent::Send { mime_type } => if self.finished {
                None
            } else {
                Some(content_to_send(self.items, mime_type.deep_view()))
            },
            SourceEvent::Cancelled => None,
        }
    }
}

impl View for CopyEventState {
    type V = CopyEventView;

    closed spec fn view(&self) -> CopyEventView {
        CopyEventView { finished: self.finished, items: self.source_data.deep_view() }
    }
}

/// Starts a copy: its state, and the type names to offer, which are all
/// names of the payload.
pub fn copy_wayland(config: CopyConfig) -> (r: (CopyEventState, CopyPlan))
    ensures
        r.0@ == (CopyEventView { finished: false, items: config.source_data.deep_view() }),
        r.1.mime_types.deep_view() == all_mime_types(config.source_data.deep_view()),
        r.1.use_primary == config.use_primary,
{
    let mime_types = config.source_data.mime_types();
    let plan = CopyPlan { mime_types, use_primary: config.use_primary };
    (CopyEventState { finished: false, source_data: config.source_data }, plan)
}

/// Takes an event of the data source. The result is what the caller writes
/// to the descriptor of a request for content.
pub fn wl_source_cb_for_copy(state: &mut CopyEventState, event: SourceEvent) -> (r: Option<
    Rc<Vec<u8>>,
>)
    ensures
        final(state)@ == old(state)@.step(event),
        r.deep_view() == old(state)@.reply(event),
{
    match event {
        SourceEvent::Send { mime_type } => {
            if state.finished {
                return None;
            }
            match mime_type {
                Some(name) => {
                    let found = state.source_data.content_by_mime_type(name.as_str());
                    Some(found.1)
                },
                None => {
                    let empty: Rc<Vec<u8>> = Rc::new(Vec::new());
                    Some(empty)
                },
            }
        },
        SourceEvent::Cancelled => {
            state.finished = true;
            None
        },
    }
}

impl CopyEventState {
    /// Whether the copy is over.
    pub fn finished(&self) -> (r: bool)
        ensures
            r == self@.finished,
    {
        self.finished
    }
}

/// An empty clipboard ends a paste well and without output. Where the
/// selection that is read has no offer, the paste is done, whatever its state
/// was; the caller leaves its loop; the offers stay as they were; and
/// nothing is left to do. Where its offer names no type, nothing is written
/// either.
pub proof fn lemma_empty_selection_ends_paste(s: PasteEventView, offer: u32)
    ensures
        ({
            let event = if s.use_primary {
                DeviceEvent::PrimarySelection { offer: None }
            } else {
                DeviceEvent::Selection { offer: None }
            };
            &&& s.step(event).stage == PasteEventStage::Done
            &&& s.step(event).offers == s.offers
            &&& s.breaks_loop(event)
            &&& s.step(event).plan() == PastePlanView::Nothing
        }),
        s.offers.contains_key(offer) && s.offers[offer].len() == 0 ==> s.on_selection(
            Some(offer),
        ).plan() == (if s.list_types_only {
            PastePlanView::ListTypes { mime_types: Seq::empty() }
        } else {
            PastePlanView::Nothing
        }),
{
    if s.offers.contains_key(offer) && s.offers[offer].len() == 0 {
        assert(s.offers[offer] =~= Seq::<Seq<char>>::empty());
    }
}

/// The type names of an offer gather in the order of their arrival, and
/// offers stay apart: a new offer has no names; a name that an offer reports
/// is put behind the names that it has, also where it has that name
/// already; and neither event touches another offer or the stage.
pub proof fn lemma_offers_gather(s: PasteEventView, offer: u32, name: String)
    ensures
        ({
            let next = s.step(DeviceEvent::DataOffer { offer });
            &&& next.offers.contains_key(offer) && next.offers[offer] == Seq::<Seq<char>>::empty()
            &&& next.offers.remove(offer) == s.offers.remove(offer)
            &&& next.stage == s.stage
        }),
        ({
            let next = s.step(DeviceEvent::Offer { offer, mime_type: Some(name) });
            &&& s.offers.contains_key(offer) ==> next.offers.contains_key(offer)
                && next.offers[offer] == s.offers[offer].push(name@)
            &&& next.offers.remove(offer) == s.offers.remove(offer)
            &&& next.stage == s.stage
        }),
{
    let fresh = s.step(DeviceEvent::DataOffer { offer });
    assert(fresh.offers.remove(offer) =~= s.offers.remove(offer));
    let next = s.step(DeviceEvent::Offer { offer, mime_type: Some(name) });
    assert(next.offers.remove(offer) =~= s.offers.remove(offer));
}

} // verus!

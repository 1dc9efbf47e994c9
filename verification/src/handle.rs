//! Handles to the views and outputs that the compositor manages.
//!
//! A handle is one machine word. It refers to a view or an output that lives
//! on the compositor's side and owns nothing. Views and outputs share the
//! representation, and are told apart by their type alone.

use crate::call::Call;
use crate::text::{pointer_to_string, text_at};
use crate::types::{Geometry, ResizeEdge, Size, ViewState, ViewType};
use core::cmp::Ordering;
use libc::uintptr_t;
use vstd::prelude::*;
use vstd::std_specs::cmp::PartialOrdSpec;
use vstd::std_specs::convert::FromSpec;

verus! {

/// A handle to a view: a surface on screen, or the root view behind all of them.
#[derive(Debug, Clone, Copy, PartialEq, Eq, Ord, Hash, Structural)]
pub struct WlcView(uintptr_t);

/// A handle to an output: a display that the compositor draws on.
#[derive(Debug, Clone, Copy, PartialEq, Eq, Ord, Hash, Structural)]
pub struct WlcOutput(uintptr_t);

impl View for WlcView {
    type V = uintptr_t;

    /// The machine word by which the compositor knows the view.
    closed spec fn view(&self) -> uintptr_t {
        self.0
    }
}

impl View for WlcOutput {
    type V = uintptr_t;

    /// The machine word by which the compositor knows the output.
    closed spec fn view(&self) -> uintptr_t {
        self.0
    }
}

impl WlcView {
    /// The view that the machine word `handle` stands for.
    pub closed spec fn of(handle: uintptr_t) -> WlcView {
        WlcView(handle)
    }

    /// The root view is the view of the machine word 0.
    pub open spec fn spec_root() -> WlcView {
        WlcView::of(0)
    }

    /// The view that `dummy` makes of `code`.
    pub open spec fn spec_dummy(code: u32) -> WlcView {
        WlcView::of(code as uintptr_t)
    }

    /// Whether this is the root view.
    pub open spec fn spec_is_root(&self) -> bool {
        self@ == 0
    }

    /// Whether this is a window: any view but the root view.
    pub open spec fn spec_is_window(&self) -> bool {
        self@ != 0
    }

    /// The root view: the desktop background, which stands for "no window".
    /// It is a view like any other, and can always be used.
    #[verifier::when_used_as_spec(spec_root)]
    pub fn root() -> (view: WlcView)
        ensures
            view == WlcView::spec_root(),
            view@ == 0,
    {
        WlcView(0)
    }

    /// A view made up from `code`, for use where no compositor is running.
    #[verifier::when_used_as_spec(spec_dummy)]
    pub fn dummy(code: u32) -> (view: WlcView)
        ensures
            view == WlcView::spec_dummy(code),
            view@ == code,
    {
        WlcView(code as uintptr_t)
    }

    /// The machine word that is handed to the compositor for this view.
    pub fn handle(&self) -> (handle: uintptr_t)
        ensures
            handle == self@,
    {
        self.0
    }
}

impl WlcOutput {
    /// The output that the machine word `handle` stands for.
    pub closed spec fn of(handle: uintptr_t) -> WlcOutput {
        WlcOutput(handle)
    }

    /// The output that `dummy` makes of `code`.
    pub open spec fn spec_dummy(code: u32) -> WlcOutput {
        WlcOutput::of(code as uintptr_t)
    }

    /// An output made up from `code`, for use where no compositor is running.
    #[verifier::when_used_as_spec(spec_dummy)]
    pub fn dummy(code: u32) -> (output: WlcOutput)
        ensures
            output == WlcOutput::spec_dummy(code),
            output@ == code,
    {
        WlcOutput(code as uintptr_t)
    }

    /// The machine word that is handed to the compositor for this output.
    pub fn handle(&self) -> (handle: uintptr_t)
        ensures
            handle == self@,
    {
        self.0
    }
}

/// A view is the machine word it wraps, and nothing else.
pub broadcast proof fn lemma_view_of_handle(handle: uintptr_t)
    ensures
        #[trigger] WlcView::of(handle)@ == handle,
{
}

/// Two views with the same machine word are the same view.
pub broadcast proof fn lemma_view_by_handle(view: WlcView)
    ensures
        WlcView::of(#[trigger] view@) == view,
{
}

/// An output is the machine word it wraps, and nothing else.
pub broadcast proof fn lemma_output_of_handle(handle: uintptr_t)
    ensures
        #[trigger] WlcOutput::of(handle)@ == handle,
{
}

/// Two outputs with the same machine word are the same output.
pub broadcast proof fn lemma_output_by_handle(output: WlcOutput)
    ensures
        WlcOutput::of(#[trigger] output@) == output,
{
}

/// What holds of every handle: what it wraps, and that it is no more than that.
pub broadcast group group_handle_laws {
    lemma_view_of_handle,
    lemma_view_by_handle,
    lemma_output_of_handle,
    lemma_output_by_handle,
}

impl From<WlcView> for WlcOutput {
    fn from(view: WlcView) -> (output: WlcOutput) {
        WlcOutput(view.0)
    }
}

impl vstd::std_specs::convert::FromSpecImpl<WlcView> for WlcOutput {
    open spec fn obeys_from_spec() -> bool {
        true
    }

    open spec fn from_spec(view: WlcView) -> WlcOutput {
        WlcOutput::of(view@)
    }
}

impl From<WlcOutput> for WlcView {
    fn from(output: WlcOutput) -> (view: WlcView) {
        WlcView(output.0)
    }
}

impl vstd::std_specs::convert::FromSpecImpl<WlcOutput> for WlcView {
    open spec fn obeys_from_spec() -> bool {
        true
    }

    open spec fn from_spec(output: WlcOutput) -> WlcView {
        WlcView::of(output@)
    }
}

impl PartialOrd for WlcView {
    fn partial_cmp(&self, other: &WlcView) -> (order: Option<Ordering>) {
        if self.0 < other.0 {
            Some(Ordering::Less)
        } else if self.0 == other.0 {
            Some(Ordering::Equal)
        } else {
            Some(Ordering::Greater)
        }
    }
}

impl vstd::std_specs::cmp::PartialOrdSpecImpl for WlcView {
    open spec fn obeys_partial_cmp_spec() -> bool {
        true
    }

    open spec fn partial_cmp_spec(&self, other: &WlcView) -> Option<Ordering> {
        if self@ < other@ {
            Some(Ordering::Less)
        } else if self@ == other@ {
            Some(Ordering::Equal)
        } else {
            Some(Ordering::Greater)
        }
    }
}

impl PartialOrd for WlcOutput {
    fn partial_cmp(&self, other: &WlcOutput) -> (order: Option<Ordering>) {
        if self.0 < other.0 {
            Some(Ordering::Less)
        } else if self.0 == other.0 {
            Some(Ordering::Equal)
        } else {
            Some(Ordering::Greater)
        }
    }
}

impl vstd::std_specs::cmp::PartialOrdSpecImpl for WlcOutput {
    open spec fn obeys_partial_cmp_spec() -> bool {
        true
    }

    open spec fn partial_cmp_spec(&self, other: &WlcOutput) -> Option<Ordering> {
        if self@ < other@ {
            Some(Ordering::Less)
        } else if self@ == other@ {
            Some(Ordering::Equal)
        } else {
            Some(Ordering::Greater)
        }
    }
}

/// The machine words of `views`, in their order.
pub open spec fn view_handles(views: Seq<WlcView>) -> Seq<uintptr_t> {
    Seq::new(views.len(), |i: int| views[i]@)
}

/// The machine words of `outputs`, in their order.
pub open spec fn output_handles(outputs: Seq<WlcOutput>) -> Seq<uintptr_t> {
    Seq::new(outputs.len(), |i: int| outputs[i]@)
}

/// The handles that the compositor listed: none for the null pointer, else
/// the machine words it points at.
pub open spec fn listed(reply: Option<&[uintptr_t]>) -> Seq<uintptr_t> {
    match reply {
        None => Seq::empty(),
        Some(handles) => handles@,
    }
}

/// The text that the compositor answered with: see [`text_at`].
pub open spec fn answered(reply: Option<&[u8]>) -> Seq<char> {
    text_at(
        match reply {
            None => None,
            Some(bytes) => Some(bytes@),
        },
    )
}

/// What `set_views` reports where the compositor refused the new stack.
pub const SET_VIEWS_FAILED: &'static str = "Could not set views on output";

impl WlcOutput {
    /// The outputs that the compositor listed, in its order: `reply` is what
    /// it answered, `None` for the null pointer, which stands for no output.
    pub fn list(reply: Option<&[uintptr_t]>) -> (outputs: Vec<WlcOutput>)
        ensures
            output_handles(outputs@) == listed(reply),
    {
        let mut outputs: Vec<WlcOutput> = Vec::new();
        if let Some(handles) = reply {
            let mut i: usize = 0;
            while i < handles.len()
                invariant
                    i <= handles@.len(),
                    outputs@.len() == i,
                    forall|j: int| 0 <= j < i ==> outputs@[j]@ == handles@[j],
                decreases handles@.len() - i,
            {
                outputs.push(WlcOutput(handles[i]));
                i += 1;
            }
        }
        assert(output_handles(outputs@) =~= listed(reply));
        outputs
    }

    /// The output that has the focus: `reply` is the machine word that the
    /// compositor answered with.
    pub fn focused(reply: uintptr_t) -> (output: WlcOutput)
        ensures
            output@ == reply,
    {
        WlcOutput(reply)
    }

    /// Turns the compositor's focus to `output`, or takes it from every
    /// output where there is none.
    pub fn focus(output: Option<&WlcOutput>) -> (call: Call)
        ensures
            call == (Call::OutputFocus {
                output: match output {
                    Some(output) => output@,
                    None => 0,
                },
            }),
    {
        match output {
            Some(output) => Call::OutputFocus { output: output.0 },
            None => Call::OutputFocus { output: 0 },
        }
    }
}

/// What can be done with a handle to an output.
///
/// A method that changes something says which call is to be made. A method
/// that asks for something takes what the compositor answered, and gives
/// the answer its type.
pub trait WlcOutputable {
    /// The same machine word, taken as a view.
    fn as_view(self) -> WlcView;

    /// Has the output drawn anew with the next frame.
    fn schedule_render(&self) -> Call;

    /// The name of the output.
    fn get_name(&self, reply: Option<&[u8]>) -> String;

    /// Whether the output sleeps.
    fn get_sleep(&self, reply: bool) -> bool;

    /// Puts the output to sleep, or wakes it.
    fn set_sleep(&self, sleep: bool) -> Call;

    /// The resolution of the output in pixels.
    fn get_resolution(&self, reply: &Size) -> Size;

    /// Gives the output another resolution.
    fn set_resolution(&self, size: Size) -> Call;

    /// The views on the output, in stacking order.
    fn get_views(&self, reply: Option<&[uintptr_t]>) -> Vec<WlcView>;

    /// The visibility mask of the output.
    fn get_mask(&self, reply: u32) -> u32;

    /// Gives the output another visibility mask.
    fn set_mask(&self, mask: u32) -> Call;

    /// The views on the output, in stacking order: the same as `get_views`.
    fn get_mutable_views(&self, reply: Option<&[uintptr_t]>) -> Vec<WlcView>;

    /// Replaces the stack of views on the output.
    fn set_views(&self, views: &mut Vec<&WlcView>) -> Call;

    /// What became of `set_views`: `reply` is what the compositor answered.
    fn set_views_result(&self, reply: bool) -> Result<(), &'static str>;
}

impl WlcOutputable for WlcOutput {
    fn as_view(self) -> (view: WlcView)
        ensures
            view == WlcView::from_spec(self),
            view@ == self@,
    {
        WlcView::from(self)
    }

    fn schedule_render(&self) -> (call: Call)
        ensures
            call == (Call::OutputScheduleRender { output: self@ }),
    {
        Call::OutputScheduleRender { output: self.0 }
    }

    /// A null pointer is no error: the name is then empty.
    fn get_name(&self, reply: Option<&[u8]>) -> (name: String)
        ensures
            name@ == answered(reply),
    {
        pointer_to_string(reply)
    }

    /// The compositor's answer is taken as it is.
    fn get_sleep(&self, reply: bool) -> (sleep: bool)
        ensures
            sleep == reply,
    {
        reply
    }

    fn set_sleep(&self, sleep: bool) -> (call: Call)
        ensures
            call == (Call::OutputSetSleep { output: self@, sleep }),
    {
        Call::OutputSetSleep { output: self.0, sleep }
    }

    /// The size is copied out of the compositor's memory, as it is.
    fn get_resolution(&self, reply: &Size) -> (size: Size)
        ensures
            size == *reply,
    {
        *reply
    }

    /// The size is handed on as it is: the compositor judges it.
    fn set_resolution(&self, size: Size) -> (call: Call)
        ensures
            call == (Call::OutputSetResolution { output: self@, resolution: size }),
    {
        Call::OutputSetResolution { output: self.0, resolution: size }
    }

    /// `reply` is what the compositor answered, `None` for the null pointer,
    /// which stands for no view.
    fn get_views(&self, reply: Option<&[uintptr_t]>) -> (views: Vec<WlcView>)
        ensures
            view_handles(views@) == listed(reply),
    {
        let mut views: Vec<WlcView> = Vec::new();
        if let Some(handles) = reply {
            let mut i: usize = 0;
            while i < handles.len()
                invariant
                    i <= handles@.len(),
                    views@.len() == i,
                    forall|j: int| 0 <= j < i ==> views@[j]@ == handles@[j],
                decreases handles@.len() - i,
            {
                views.push(WlcView(handles[i]));
                i += 1;
            }
        }
        assert(view_handles(views@) =~= listed(reply));
        views
    }

    /// The compositor's answer is taken as it is.
    fn get_mask(&self, reply: u32) -> (mask: u32)
        ensures
            mask == reply,
    {
        reply
    }

    fn set_mask(&self, mask: u32) -> (call: Call)
        ensures
            call == (Call::OutputSetMask { output: self@, mask }),
    {
        Call::OutputSetMask { output: self.0, mask }
    }

    fn get_mutable_views(&self, reply: Option<&[uintptr_t]>) -> (views: Vec<WlcView>)
        ensures
            view_handles(views@) == listed(reply),
    {
        self.get_views(reply)
    }

    /// The call holds the machine words of `views`, in their order. `views`
    /// itself is left as it was.
    fn set_views(&self, views: &mut Vec<&WlcView>) -> (call: Call)
        ensures
            final(views)@ == old(views)@,
            call matches Call::OutputSetViews { output, views: stack } && output == self@
                && stack@ == Seq::new(old(views)@.len(), |i: int| old(views)@[i]@),
    {
        let mut stack: Vec<uintptr_t> = Vec::new();
        let mut i: usize = 0;
        while i < views.len()
            invariant
                i <= views@.len(),
                views@ == old(views)@,
                stack@.len() == i,
                forall|j: int| 0 <= j < i ==> stack@[j] == views@[j]@,
            decreases views@.len() - i,
        {
            stack.push(views[i].0);
            i += 1;
        }
        assert(stack@ =~= Seq::new(old(views)@.len(), |i: int| old(views)@[i]@));
        Call::OutputSetViews { output: self.0, views: stack }
    }

    /// A refusal is an error to report, never a crash.
    fn set_views_result(&self, reply: bool) -> (result: Result<(), &'static str>)
        ensures
            reply ==> result is Ok,
            !reply ==> result == Err::<(), &'static str>(SET_VIEWS_FAILED),
    {
        if reply {
            Ok(())
        } else {
            Err(SET_VIEWS_FAILED)
        }
    }
}

/// What can be done with a handle to a view.
///
/// A method that changes something says which call is to be made. A method
/// that asks for something takes what the compositor answered, and gives
/// the answer its type.
pub trait WlcViewable {
    /// The same machine word, taken as an output.
    fn as_output(self) -> WlcOutput;

    /// Whether this is the root view, the desktop background.
    fn is_root(&self) -> bool;

    /// Whether this is a window: any view but the root view.
    fn is_window(&self) -> bool;

    /// Asks the surface behind the view to close.
    fn close(&self) -> Option<Call>;

    /// The output that the view is on.
    fn get_output(&self, reply: uintptr_t) -> WlcOutput;

    /// Moves the view to `output`.
    fn set_output(&self, output: &WlcOutput) -> Call;

    /// Gives the view the focus; on the root view, takes it from all.
    fn focus(&self) -> Call;

    /// Puts the view behind all others on its output.
    fn send_to_back(&self) -> Call;

    /// Puts the view right below `other`.
    fn send_below(&self, other: &WlcView) -> Call;

    /// Puts the view right above `other`.
    fn bring_above(&self, other: &WlcView) -> Call;

    /// Puts the view in front of all others on its output.
    fn bring_to_front(&self) -> Call;

    /// The visibility mask of the view.
    fn get_mask(&self, reply: u32) -> u32;

    /// Gives the view another visibility mask.
    fn set_mask(&self, mask: u32) -> Call;

    /// The geometry of the view, where it has one.
    fn get_geometry(&self, reply: Option<&Geometry>) -> Option<Geometry>;

    /// The geometry of what is seen of the view.
    fn get_visible_geometry(&self, reply: Option<&Geometry>) -> Geometry;

    /// Gives the view another geometry.
    fn set_geometry(&self, edges: ResizeEdge, geometry: &Geometry) -> Call;

    /// The flags of the view's type.
    fn get_type(&self, reply: u32) -> ViewType;

    /// Sets flags in the view's type, or clears them.
    fn set_type(&self, view_type: ViewType, toggle: bool) -> Call;

    /// The flags of the view's state.
    fn get_state(&self, reply: u32) -> ViewState;

    /// Sets flags in the view's state, or clears them.
    fn set_state(&self, state: ViewState, toggle: bool) -> Call;

    /// The parent of the view; the root view where it has none.
    fn get_parent(&self, reply: uintptr_t) -> WlcView;

    /// Makes `parent` the parent of the view.
    fn set_parent(&self, parent: &WlcView) -> Call;

    /// The title of the view.
    fn get_title(&self, reply: Option<&[u8]>) -> String;

    /// The class of the view.
    fn get_class(&self, reply: Option<&[u8]>) -> String;

    /// The app id of the view.
    fn get_app_id(&self, reply: Option<&[u8]>) -> String;
}

impl WlcViewable for WlcView {
    fn as_output(self) -> (output: WlcOutput)
        ensures
            output == WlcOutput::from_spec(self),
            output@ == self@,
    {
        WlcOutput::from(self)
    }

    /// The root view is the one whose machine word is 0.
    fn is_root(&self) -> (root: bool)
        ensures
            root == self.spec_is_root(),
    {
        self.0 == 0
    }

    fn is_window(&self) -> (window: bool)
        ensures
            window == self.spec_is_window(),
    {
        self.0 != 0
    }

    /// The root view cannot be closed: for it no call is made.
    fn close(&self) -> (call: Option<Call>)
        ensures
            call == if self.spec_is_root() {
                None
            } else {
                Some(Call::ViewClose { view: self@ })
            },
    {
        if self.is_root() {
            None
        } else {
            Some(Call::ViewClose { view: self.0 })
        }
    }

    /// `reply` is the machine word that the compositor answered with.
    fn get_output(&self, reply: uintptr_t) -> (output: WlcOutput)
        ensures
            output@ == reply,
    {
        WlcOutput(reply)
    }

    fn set_output(&self, output: &WlcOutput) -> (call: Call)
        ensures
            call == (Call::ViewSetOutput { view: self@, output: output@ }),
    {
        Call::ViewSetOutput { view: self.0, output: output.0 }
    }

    fn focus(&self) -> (call: Call)
        ensures
            call == (Call::ViewFocus { view: self@ }),
    {
        Call::ViewFocus { view: self.0 }
    }

    fn send_to_back(&self) -> (call: Call)
        ensures
            call == (Call::ViewSendToBack { view: self@ }),
    {
        Call::ViewSendToBack { view: self.0 }
    }

    fn send_below(&self, other: &WlcView) -> (call: Call)
        ensures
            call == (Call::ViewSendBelow { view: self@, other: other@ }),
    {
        Call::ViewSendBelow { view: self.0, other: other.0 }
    }

    fn bring_above(&self, other: &WlcView) -> (call: Call)
        ensures
            call == (Call::ViewBringAbove { view: self@, other: other@ }),
    {
        Call::ViewBringAbove { view: self.0, other: other.0 }
    }

    fn bring_to_front(&self) -> (call: Call)
        ensures
            call == (Call::ViewBringToFront { view: self@ }),
    {
        Call::ViewBringToFront { view: self.0 }
    }

    /// The compositor's answer is taken as it is.
    fn get_mask(&self, reply: u32) -> (mask: u32)
        ensures
            mask == reply,
    {
        reply
    }

    fn set_mask(&self, mask: u32) -> (call: Call)
        ensures
            call == (Call::ViewSetMask { view: self@, mask }),
    {
        Call::ViewSetMask { view: self.0, mask }
    }

    /// `reply` is what the compositor pointed at, `None` for the null
    /// pointer. The geometry is copied out of the compositor's memory.
    fn get_geometry(&self, reply: Option<&Geometry>) -> (geometry: Option<Geometry>)
        ensures
            geometry == match reply {
                None => None,
                Some(there) => Some(*there),
            },
    {
        match reply {
            None => None,
            Some(there) => Some(*there),
        }
    }

    /// `reply` is what the compositor filled in, `None` where it filled in
    /// nothing: the geometry is then the rectangle that covers nothing.
    fn get_visible_geometry(&self, reply: Option<&Geometry>) -> (geometry: Geometry)
        ensures
            geometry == match reply {
                None => Geometry::zero(),
                Some(there) => *there,
            },
    {
        match reply {
            None => Geometry::zero(),
            Some(there) => *there,
        }
    }

    /// The geometry is handed on as it is: the compositor judges it.
    fn set_geometry(&self, edges: ResizeEdge, geometry: &Geometry) -> (call: Call)
        ensures
            call == (Call::ViewSetGeometry { view: self@, edges: edges@, geometry: *geometry }),
    {
        Call::ViewSetGeometry { view: self.0, edges: edges.bits(), geometry: *geometry }
    }

    /// `reply` is the word of flags that the compositor answered with.
    fn get_type(&self, reply: u32) -> (view_type: ViewType)
        ensures
            view_type@ == reply,
    {
        ViewType::from_raw(reply)
    }

    fn set_type(&self, view_type: ViewType, toggle: bool) -> (call: Call)
        ensures
            call == (Call::ViewSetType { view: self@, view_type, toggle }),
    {
        Call::ViewSetType { view: self.0, view_type, toggle }
    }

    /// `reply` is the word of flags that the compositor answered with.
    fn get_state(&self, reply: u32) -> (state: ViewState)
        ensures
            state@ == reply,
    {
        ViewState::from_raw(reply)
    }

    fn set_state(&self, state: ViewState, toggle: bool) -> (call: Call)
        ensures
            call == (Call::ViewSetState { view: self@, state, toggle }),
    {
        Call::ViewSetState { view: self.0, state, toggle }
    }

    /// `reply` is the machine word that the compositor answered with; 0, the
    /// root view, where the view has no parent.
    fn get_parent(&self, reply: uintptr_t) -> (parent: WlcView)
        ensures
            parent@ == reply,
    {
        WlcView(reply)
    }

    fn set_parent(&self, parent: &WlcView) -> (call: Call)
        ensures
            call == (Call::ViewSetParent { view: self@, parent: parent@ }),
    {
        Call::ViewSetParent { view: self.0, parent: parent.0 }
    }

    /// A null pointer is no error: the title is then empty.
    fn get_title(&self, reply: Option<&[u8]>) -> (title: String)
        ensures
            title@ == answered(reply),
    {
        pointer_to_string(reply)
    }

    /// A null pointer is no error: the class is then empty.
    fn get_class(&self, reply: Option<&[u8]>) -> (class: String)
        ensures
            class@ == answered(reply),
    {
        pointer_to_string(reply)
    }

    /// A null pointer is no error: the app id is then empty.
    fn get_app_id(&self, reply: Option<&[u8]>) -> (app_id: String)
        ensures
            app_id@ == answered(reply),
    {
        pointer_to_string(reply)
    }
}

/// Two views are one view exactly where their machine words are equal.
pub proof fn lemma_view_identity(a: WlcView, b: WlcView)
    ensures
        (a == b) <==> (a@ == b@),
{
}

/// Two outputs are one output exactly where their machine words are equal.
pub proof fn lemma_output_identity(a: WlcOutput, b: WlcOutput)
    ensures
        (a == b) <==> (a@ == b@),
{
}

/// Views are ordered as their machine words are: one comes before another
/// exactly where its word is the smaller, and two compare equal exactly
/// where they are one view.
pub proof fn lemma_view_order(a: WlcView, b: WlcView)
    ensures
        a.partial_cmp_spec(&b) == Some(Ordering::Less) <==> a@ < b@,
        a.partial_cmp_spec(&b) == Some(Ordering::Equal) <==> a == b,
        a.partial_cmp_spec(&b) == Some(Ordering::Greater) <==> a@ > b@,
{
}

/// Outputs are ordered as their machine words are: one comes before another
/// exactly where its word is the smaller, and two compare equal exactly
/// where they are one output.
pub proof fn lemma_output_order(a: WlcOutput, b: WlcOutput)
    ensures
        a.partial_cmp_spec(&b) == Some(Ordering::Less) <==> a@ < b@,
        a.partial_cmp_spec(&b) == Some(Ordering::Equal) <==> a == b,
        a.partial_cmp_spec(&b) == Some(Ordering::Greater) <==> a@ > b@,
{
}

/// The order of views is total: any two compare, one way exactly; what
/// comes before is never what comes after; and the order carries over from
/// two steps to one.
pub proof fn lemma_view_order_total(a: WlcView, b: WlcView, c: WlcView)
    ensures
        a.partial_cmp_spec(&b) is Some,
        a.partial_cmp_spec(&a) == Some(Ordering::Equal),
        a.partial_cmp_spec(&b) == Some(Ordering::Less) <==> b.partial_cmp_spec(&a) == Some(
            Ordering::Greater,
        ),
        a.partial_cmp_spec(&b) == Some(Ordering::Less) && b.partial_cmp_spec(&c) == Some(
            Ordering::Less,
        ) ==> a.partial_cmp_spec(&c) == Some(Ordering::Less),
{
}

/// The order of outputs is total: any two compare, one way exactly; what
/// comes before is never what comes after; and the order carries over from
/// two steps to one.
pub proof fn lemma_output_order_total(a: WlcOutput, b: WlcOutput, c: WlcOutput)
    ensures
        a.partial_cmp_spec(&b) is Some,
        a.partial_cmp_spec(&a) == Some(Ordering::Equal),
        a.partial_cmp_spec(&b) == Some(Ordering::Less) <==> b.partial_cmp_spec(&a) == Some(
            Ordering::Greater,
        ),
        a.partial_cmp_spec(&b) == Some(Ordering::Less) && b.partial_cmp_spec(&c) == Some(
            Ordering::Less,
        ) ==> a.partial_cmp_spec(&c) == Some(Ordering::Less),
{
}

/// The root view is the root and no window; every other view is a window and
/// not the root.
pub proof fn lemma_root_and_windows(view: WlcView)
    ensures
        WlcView::spec_root().spec_is_root(),
        !WlcView::spec_root().spec_is_window(),
        view != WlcView::spec_root() ==> view.spec_is_window() && !view.spec_is_root(),
        view.spec_is_root() != view.spec_is_window(),
{
}

/// A view taken as an output and then as a view again is the view it was.
pub proof fn lemma_view_round_trip(view: WlcView)
    ensures
        WlcView::from_spec(WlcOutput::from_spec(view)) == view,
        WlcOutput::from_spec(view)@ == view@,
{
}

/// An output taken as a view and then as an output again is the output it was.
pub proof fn lemma_output_round_trip(output: WlcOutput)
    ensures
        WlcOutput::from_spec(WlcView::from_spec(output)) == output,
        WlcView::from_spec(output)@ == output@,
{
}

/// Views made up from two codes differ where the codes do, and stand in the
/// order of the codes. The view made up from the code 0 is the root view.
pub proof fn lemma_dummy_views(a: u32, b: u32)
    ensures
        a != b ==> WlcView::spec_dummy(a) != WlcView::spec_dummy(b),
        a < b <==> WlcView::spec_dummy(a).partial_cmp_spec(&WlcView::spec_dummy(b)) == Some(
            Ordering::Less,
        ),
        WlcView::spec_dummy(0) == WlcView::spec_root(),
{
}

/// Outputs made up from two codes differ where the codes do, and stand in the
/// order of the codes.
pub proof fn lemma_dummy_outputs(a: u32, b: u32)
    ensures
        a != b ==> WlcOutput::spec_dummy(a) != WlcOutput::spec_dummy(b),
        a < b <==> WlcOutput::spec_dummy(a).partial_cmp_spec(&WlcOutput::spec_dummy(b)) == Some(
            Ordering::Less,
        ),
{
}

} // verus!

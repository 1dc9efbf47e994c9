use rustwlc::{
    Call, Geometry, Point, ResizeEdge, Size, ViewType, WlcOutput, WlcOutputable, WlcView,
    WlcViewable,
};

/// Carries out what a handle asked for, as a compositor that is not running
/// would: it counts the calls and does nothing else.
fn carry_out(call: Option<Call>, made: &mut Vec<Call>) {
    if let Some(call) = call {
        made.push(call);
    }
}

#[test]
fn dummy_views() {
    let dummy = WlcView::dummy(1);
    assert!(!dummy.is_root(), "Dummy(1) is root");
    assert!(dummy.is_window(), "Dummy(1) is root");
    // Without a compositor every text is a null pointer.
    let _title = dummy.get_title(None);
    let _class = dummy.get_class(None);
    let _app_id = dummy.get_app_id(None);
    // Let's do some stuff with views
    dummy.close(); // works
    let output = dummy.get_output(0);
    assert!(output == WlcOutput::dummy(0));
    dummy.set_output(&output);
    let mask = dummy.get_mask(0);
    dummy.set_mask(mask);
    let geometry = dummy.get_geometry(None);
    assert!(geometry.is_none(), "Got geometry from dummy");
    dummy.set_geometry(
        ResizeEdge::empty(),
        &Geometry { origin: Point { x: 0, y: 0 }, size: Size { w: 0, h: 0 } },
    );
    let view_type = dummy.get_type(0);
    assert!(view_type.is_empty(), "Dummy had a view type");
    dummy.set_type(ViewType::empty(), true);
    let view_state = dummy.get_state(0);
    assert!(view_state.is_empty(), "Dummu had a view state");
    dummy.set_state(view_state, true);
    let parent = dummy.get_parent(0);
    assert!(parent.is_root(), "Dummy had real parent");
    dummy.set_parent(&parent);
}

#[test]
fn dummy_outputs() {
    let dummy = WlcOutput::dummy(1);
    dummy.schedule_render();
    let _name = dummy.get_name(None);
    let sleep = dummy.get_sleep(false);
    dummy.set_sleep(sleep);
    let _resolution = dummy.get_resolution(&Size { w: 0, h: 0 });
    let views = dummy.get_views(None);
    dummy.set_views(&mut views.iter().collect());
    // Without a compositor the new stack is refused.
    dummy.set_views_result(false).unwrap_err();
    let mask = dummy.get_mask(0);
    dummy.set_mask(mask);
    WlcOutput::focus(Some(&dummy));
}

#[test]
fn handles_are_equal_where_their_words_are() {
    assert!(WlcView::dummy(7) == WlcView::dummy(7));
    assert!(WlcView::dummy(7) != WlcView::dummy(8));
    assert!(WlcOutput::dummy(7) == WlcOutput::dummy(7));
    assert!(WlcOutput::dummy(7) != WlcOutput::dummy(8));
    assert_eq!(WlcView::dummy(7).handle(), 7);
    assert_eq!(WlcOutput::dummy(9).handle(), 9);
}

#[test]
fn handles_are_ordered_as_their_words_are() {
    let view = WlcView::dummy(0u32);
    let view2 = WlcView::dummy(1u32);
    assert!(view < view2);
    assert!(view != view2);
    assert!(view2 > view);
    assert!(view <= view);
    let output = WlcOutput::dummy(0u32);
    let output2 = WlcOutput::dummy(1u32);
    assert!(output < output2);
    assert!(output != output2);
    assert_eq!(view.partial_cmp(&view2), Some(std::cmp::Ordering::Less));
    assert_eq!(view2.partial_cmp(&view), Some(std::cmp::Ordering::Greater));
    assert_eq!(view.partial_cmp(&view), Some(std::cmp::Ordering::Equal));
    assert_eq!(view.cmp(&view2), std::cmp::Ordering::Less);
    assert_eq!(output2.cmp(&output), std::cmp::Ordering::Greater);
}

#[test]
fn handles_sort_and_deduplicate() {
    let mut views = vec![WlcView::dummy(3), WlcView::dummy(1), WlcView::dummy(3), WlcView::root()];
    views.sort();
    views.dedup();
    assert_eq!(views, vec![WlcView::root(), WlcView::dummy(1), WlcView::dummy(3)]);
    let mut seen = std::collections::HashSet::new();
    assert!(seen.insert(WlcOutput::dummy(4)));
    assert!(!seen.insert(WlcOutput::dummy(4)));
}

#[test]
fn root_is_root_and_no_window() {
    let view = WlcView::root();
    assert!(view.is_root());
    assert!(!view.is_window());
    assert!(WlcView::root() == WlcView::dummy(0));
    for code in [1u32, 2, 255, u32::MAX] {
        assert!(!WlcView::dummy(code).is_root());
        assert!(WlcView::dummy(code).is_window());
    }
}

#[test]
fn view_and_output_convert_back_and_forth() {
    for code in [0u32, 1, 42, u32::MAX] {
        let view = WlcView::dummy(code);
        assert_eq!(view.as_output().as_view(), view);
        assert_eq!(view.as_output(), WlcOutput::dummy(code));
        assert_eq!(WlcView::from(WlcOutput::from(view)), view);
        let output = WlcOutput::dummy(code);
        assert_eq!(output.as_view().as_output(), output);
        assert_eq!(WlcOutput::from(WlcView::from(output)), output);
    }
}

#[test]
fn close_makes_no_call_on_the_root_view() {
    let mut made = Vec::new();
    carry_out(WlcView::root().close(), &mut made);
    assert_eq!(made.len(), 0);
    carry_out(WlcView::dummy(0).close(), &mut made);
    assert_eq!(made.len(), 0);
    carry_out(WlcView::dummy(1).close(), &mut made);
    assert_eq!(made, vec![Call::ViewClose { view: 1 }]);
    carry_out(WlcView::dummy(5).close(), &mut made);
    assert_eq!(made.len(), 2);
    assert_eq!(made[1], Call::ViewClose { view: 5 });
}

#[test]
fn focus_names_the_output_or_none() {
    let output = WlcOutput::dummy(3);
    assert_eq!(WlcOutput::focus(Some(&output)), Call::OutputFocus { output: 3 });
    assert_eq!(WlcOutput::focus(None), Call::OutputFocus { output: 0 });
    assert_eq!(WlcOutput::focused(3), output);
}

#[test]
fn list_gives_the_outputs_in_order() {
    assert_eq!(WlcOutput::list(None), vec![]);
    assert_eq!(WlcOutput::list(Some(&[])), vec![]);
    assert_eq!(
        WlcOutput::list(Some(&[2, 1, 7])),
        vec![WlcOutput::dummy(2), WlcOutput::dummy(1), WlcOutput::dummy(7)]
    );
}

#[test]
fn get_views_gives_the_views_in_stacking_order() {
    let output = WlcOutput::dummy(1);
    assert_eq!(output.get_views(None), vec![]);
    assert_eq!(output.get_views(Some(&[])), vec![]);
    let stack = [9usize, 0, 4, 9];
    let views = output.get_views(Some(&stack));
    assert_eq!(
        views,
        vec![WlcView::dummy(9), WlcView::root(), WlcView::dummy(4), WlcView::dummy(9)]
    );
    assert_eq!(output.get_mutable_views(Some(&stack)), views);
}

#[test]
fn set_views_hands_on_the_words_in_order() {
    let output = WlcOutput::dummy(2);
    let a = WlcView::dummy(5);
    let b = WlcView::dummy(3);
    let mut views = vec![&a, &b, &a];
    let call = output.set_views(&mut views);
    assert_eq!(call, Call::OutputSetViews { output: 2, views: vec![5, 3, 5] });
    assert_eq!(views, vec![&a, &b, &a]);
    let mut none: Vec<&WlcView> = Vec::new();
    assert_eq!(output.set_views(&mut none), Call::OutputSetViews { output: 2, views: vec![] });
}

#[test]
fn set_views_reports_a_refusal() {
    let output = WlcOutput::dummy(2);
    assert_eq!(output.set_views_result(true), Ok(()));
    assert_eq!(output.set_views_result(false), Err("Could not set views on output"));
    assert_eq!(WlcOutput::dummy(0).set_views_result(false), Err("Could not set views on output"));
}

#[test]
fn texts_are_empty_at_the_null_pointer() {
    let view = WlcView::dummy(1);
    assert_eq!(view.get_title(None), "");
    assert_eq!(view.get_class(None), "");
    assert_eq!(view.get_app_id(None), "");
    assert_eq!(WlcOutput::dummy(1).get_name(None), "");
    assert_eq!(view.get_title(Some(b"")), "");
}

#[test]
fn texts_are_copied_from_what_the_pointer_refers_to() {
    let view = WlcView::dummy(1);
    assert_eq!(view.get_title(Some(b"Terminal")), "Terminal");
    assert_eq!(view.get_class(Some(b"URxvt\0")), "URxvt");
    assert_eq!(view.get_app_id(Some(b"org.example.App\0left over")), "org.example.App");
    assert_eq!(WlcOutput::dummy(1).get_name(Some(b"WLC-1\0")), "WLC-1");
}

#[test]
fn geometry_is_none_at_the_null_pointer() {
    let view = WlcView::dummy(1);
    let there = Geometry { origin: Point { x: -3, y: 4 }, size: Size { w: 640, h: 480 } };
    assert_eq!(view.get_geometry(None), None);
    assert_eq!(view.get_geometry(Some(&there)), Some(there));
    assert_eq!(view.get_visible_geometry(None), Geometry::zero());
    assert_eq!(
        view.get_visible_geometry(None),
        Geometry { origin: Point { x: 0, y: 0 }, size: Size { w: 0, h: 0 } }
    );
    assert_eq!(view.get_visible_geometry(Some(&there)), there);
}

#[test]
fn answers_are_given_their_type() {
    let view = WlcView::dummy(6);
    assert_eq!(view.get_output(2), WlcOutput::dummy(2));
    assert_eq!(view.get_parent(0), WlcView::root());
    assert_eq!(view.get_parent(4), WlcView::dummy(4));
    assert_eq!(view.get_mask(0xff00), 0xff00);
    assert_eq!(view.get_type(5).bits(), 5);
    assert_eq!(view.get_state(18).bits(), 18);
    let output = WlcOutput::dummy(6);
    assert_eq!(output.get_mask(3), 3);
    assert!(output.get_sleep(true));
    assert!(!output.get_sleep(false));
    assert_eq!(output.get_resolution(&Size { w: 1920, h: 1080 }), Size { w: 1920, h: 1080 });
}

#[test]
fn view_calls_carry_the_words_of_the_handles() {
    let view = WlcView::dummy(6);
    let other = WlcView::dummy(8);
    let geometry = Geometry { origin: Point { x: 10, y: -20 }, size: Size { w: 30, h: 40 } };
    assert_eq!(view.focus(), Call::ViewFocus { view: 6 });
    assert_eq!(WlcView::root().focus(), Call::ViewFocus { view: 0 });
    assert_eq!(view.send_to_back(), Call::ViewSendToBack { view: 6 });
    assert_eq!(view.send_below(&other), Call::ViewSendBelow { view: 6, other: 8 });
    assert_eq!(view.bring_above(&other), Call::ViewBringAbove { view: 6, other: 8 });
    assert_eq!(view.bring_to_front(), Call::ViewBringToFront { view: 6 });
    assert_eq!(view.set_output(&WlcOutput::dummy(2)), Call::ViewSetOutput { view: 6, output: 2 });
    assert_eq!(view.set_mask(9), Call::ViewSetMask { view: 6, mask: 9 });
    assert_eq!(
        view.set_geometry(ResizeEdge::from_raw(5), &geometry),
        Call::ViewSetGeometry { view: 6, edges: 5, geometry }
    );
    assert_eq!(
        view.set_type(ViewType::from_raw(2), false),
        Call::ViewSetType { view: 6, view_type: ViewType::from_raw(2), toggle: false }
    );
    let state = view.get_state(16);
    assert_eq!(view.set_state(state, true), Call::ViewSetState { view: 6, state, toggle: true });
    assert_eq!(view.set_parent(&WlcView::root()), Call::ViewSetParent { view: 6, parent: 0 });
}

#[test]
fn output_calls_carry_the_word_of_the_handle() {
    let output = WlcOutput::dummy(4);
    assert_eq!(output.schedule_render(), Call::OutputScheduleRender { output: 4 });
    assert_eq!(output.set_sleep(true), Call::OutputSetSleep { output: 4, sleep: true });
    assert_eq!(output.set_mask(1), Call::OutputSetMask { output: 4, mask: 1 });
    assert_eq!(
        output.set_resolution(Size { w: 800, h: 600 }),
        Call::OutputSetResolution { output: 4, resolution: Size { w: 800, h: 600 } }
    );
}

use julia::state::default_state;
use julia::state::Hsv;
use julia::state::JuliaEvent;
use julia::state::JuliaState;
use julia::state::KeyCommand;
use julia::Complex;
use julia::ImgDimensions;

fn start() -> JuliaState {
    JuliaState::initial(
        default_state(),
        Hsv {
            hue: 0,
            sat: 0,
            val: 0,
        },
        Hsv {
            hue: 0,
            sat: 0,
            val: 1_000_000,
        },
        Hsv {
            hue: 0,
            sat: 0,
            val: 1_000_000,
        },
        ImgDimensions {
            width: 800,
            height: 800,
        },
    )
}

fn key(code: KeyCommand) -> JuliaEvent {
    JuliaEvent::Key {
        code,
        shift: false,
        alt: false,
        ctrl: false,
    }
}

#[test]
fn zoom_keys_scale_extents_exactly() {
    let mut s = start();
    s.handle_event(key(KeyCommand::ZoomIn));
    // 3.6 * 10 / 11, truncated.
    assert_eq!(s.extents().re, 3_272_727);
    assert_eq!(s.extents().im, 3_272_727);
    let mut t = start();
    t.handle_event(key(KeyCommand::ZoomOut));
    assert_eq!(t.extents().re, 3_960_000);
}

#[test]
fn arrow_keys_move_c_by_modifier_distance() {
    let mut s = start();
    s.handle_event(key(KeyCommand::CRight));
    assert_eq!(s.c(), Complex { re: 201_000, im: 0 });
    s.handle_event(JuliaEvent::Key {
        code: KeyCommand::CUp,
        shift: true,
        alt: false,
        ctrl: false,
    });
    assert_eq!(s.c(), Complex { re: 201_000, im: 100 });
    s.handle_event(JuliaEvent::Key {
        code: KeyCommand::CDown,
        shift: false,
        alt: false,
        ctrl: true,
    });
    assert_eq!(
        s.c(),
        Complex {
            re: 201_000,
            im: -99_900
        }
    );
}

#[test]
fn iteration_keys_step_and_saturate() {
    let mut s = start();
    s.handle_event(key(KeyCommand::ItersUp));
    assert_eq!(s.iters(), 110);
    for _ in 0..20 {
        s.handle_event(key(KeyCommand::ItersDown));
    }
    // 110 steps down: 100, 90, ..., 20, then pinned at 10.
    assert_eq!(s.iters(), 10);
}

#[test]
fn exponent_never_drops_below_two() {
    let mut s = start();
    s.handle_event(key(KeyCommand::ExponentDown));
    assert_eq!(s.n(), 2);
    s.handle_event(key(KeyCommand::ExponentUp));
    assert_eq!(s.n(), 3);
    s.handle_event(key(KeyCommand::ExponentDown));
    assert_eq!(s.n(), 2);
}

#[test]
fn reset_keys_restore_center_and_extents() {
    let mut s = start();
    s.handle_event(key(KeyCommand::PanUp));
    s.handle_event(key(KeyCommand::ZoomIn));
    s.handle_event(key(KeyCommand::ResetCenter));
    s.handle_event(key(KeyCommand::ResetExtents));
    assert_eq!(s.center(), Complex { re: 0, im: 0 });
    assert_eq!(
        s.extents(),
        Complex {
            re: 3_600_000,
            im: 3_600_000
        }
    );
}

#[test]
fn keyboard_pan_moves_a_thirtieth_of_the_extent() {
    let mut s = start();
    s.handle_event(key(KeyCommand::PanUp));
    assert_eq!(s.center(), Complex { re: 0, im: 120_000 });
    s.handle_event(key(KeyCommand::PanLeft));
    assert_eq!(
        s.center(),
        Complex {
            re: -120_000,
            im: 120_000
        }
    );
}

#[test]
fn midpoint_adjust_pushes_neighbors_and_stays_ordered() {
    let mut s = start();
    // Editing midpoint 1 (the default selection), push it past midpoint 2.
    for _ in 0..80 {
        s.handle_event(key(KeyCommand::MidpointUp));
    }
    let d = s.data;
    assert!(d.midpoint0 <= d.midpoint1 && d.midpoint1 <= d.midpoint2);
    assert_eq!(d.midpoint1, 1_000_000);
    // Now pull it below midpoint 0.
    s.handle_event(key(KeyCommand::SelectMidpoint2));
    for _ in 0..120 {
        s.handle_event(key(KeyCommand::MidpointDown));
    }
    let d = s.data;
    assert!(d.midpoint0 <= d.midpoint1 && d.midpoint1 <= d.midpoint2);
    assert_eq!(d.midpoint2, 0);
    assert_eq!(d.midpoint0, 0);
}

#[test]
fn saturation_and_value_clamp_to_unit_range() {
    let mut s = start();
    let recolor = s.handle_event(key(KeyCommand::SaturationDown));
    assert!(recolor);
    assert_eq!(s.active_hsv().sat, 0);
    for _ in 0..100 {
        s.handle_event(key(KeyCommand::SaturationUp));
    }
    assert_eq!(s.active_hsv().sat, 1_000_000);
    for _ in 0..200 {
        s.handle_event(key(KeyCommand::ValueUp));
    }
    assert_eq!(s.active_hsv().val, 1_000_000);
}

#[test]
fn hue_wraps_around_the_circle() {
    let mut s = start();
    s.handle_event(key(KeyCommand::HueDown));
    assert_eq!(s.active_hsv().hue, 355_000_000);
    s.handle_event(key(KeyCommand::HueUp));
    assert_eq!(s.active_hsv().hue, 0);
}

#[test]
fn export_dimension_keys_step_by_forty_and_stop_at_forty() {
    let mut s = start();
    s.handle_event(key(KeyCommand::ExportWidthUp));
    assert_eq!(s.export_dimensions.width, 840);
    for _ in 0..30 {
        s.handle_event(key(KeyCommand::ExportWidthDown));
    }
    assert_eq!(s.export_dimensions.width, 40);
    s.handle_event(key(KeyCommand::ExportHeightDown));
    assert_eq!(s.export_dimensions.height, 760);
}

#[test]
fn drag_pans_with_the_cursor() {
    let mut s = start();
    s.handle_event(JuliaEvent::MouseInput { pressed: true });
    s.handle_event(JuliaEvent::CursorMoved {
        x: 100,
        y: 0,
        win_width: 800,
        win_height: 800,
    });
    // dx = 100 pixels over an 800-pixel window of extent 3.6: the
    // center moves by -0.45 horizontally.
    assert_eq!(s.center(), Complex { re: -450_000, im: 0 });
    s.handle_event(JuliaEvent::MouseInput { pressed: false });
    s.handle_event(JuliaEvent::CursorMoved {
        x: 0,
        y: 0,
        win_width: 800,
        win_height: 800,
    });
    // Released: the cursor is tracked but the viewport stays.
    assert_eq!(s.center(), Complex { re: -450_000, im: 0 });
}

#[test]
fn scroll_zooms_multiplicatively() {
    let mut s = start();
    // Half a line towards the screen: extents shrink by 1/(1 + 0.25).
    s.handle_event(JuliaEvent::Scroll { amount: 500_000 });
    assert_eq!(s.extents().re, 2_880_000);
    let mut t = start();
    t.handle_event(JuliaEvent::Scroll { amount: -500_000 });
    assert_eq!(t.extents().re, 4_500_000);
}

#[test]
fn quit_and_close_events_request_close() {
    let mut s = start();
    assert!(!s.close_requested());
    s.handle_event(key(KeyCommand::Quit));
    assert!(s.close_requested());
    let mut t = start();
    t.handle_event(JuliaEvent::CloseRequested);
    assert!(t.close_requested());
}

#[test]
fn export_key_sets_the_flag() {
    let mut s = start();
    assert!(!s.export_requested);
    s.handle_event(key(KeyCommand::RequestExport));
    assert!(s.export_requested);
}

#[test]
fn state_report_prints_the_whole_picture() {
    let s = start();
    let report = julia::text::state_report(&s);
    let expected = "\n=============================\n\
                    ======= Current state =======\n\
                    =============================\n\
                    f(x) = x^2 + (0.2 + 0i)\n\
                    100 Iterations\n\
                    Range: (-1.8 - 1.8i) -- (1.8 + 1.8i)\n\
                    Color gradient: [#000000], #ffffff, #ffffff (0, [0.25], 1)\n    \
                    [H0 S0 V0], H0 S0 V1, H0 S0 V1\n\
                    Export dimensions: 800x800";
    assert_eq!(report, expected);
}

#[test]
fn selection_keys_choose_stops_and_midpoints() {
    let mut s = start();
    s.handle_event(key(KeyCommand::SelectColor2));
    assert_eq!(s.active_color_idx(), 2);
    s.handle_event(key(KeyCommand::SelectMidpoint0));
    assert_eq!(s.active_midpt_idx(), 0);
    assert!(s.set_active_color(3).is_err());
    assert!(s.set_active_midpt(1).is_ok());
}

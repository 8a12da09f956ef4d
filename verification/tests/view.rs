use grepowski::fragment::{File, Fragment};
use grepowski::fragment_evaluation::FragmentEvaluation;
use grepowski::fx_filter::{CellFilter, FxFilter, NoMoreRects};
use grepowski::geometry::{Area, Margin};
use grepowski::score::Score;
use grepowski::theme::Theme;
use grepowski::tui::{
    gauge_parts, make_code, width_of_list, CodePanel, DisplayDataState, GatherDataState, ListState, Nav,
    Panels, Step, Tui, TuiDeepState, TuiError, TuiEvent, TuiState, HISTORY_CAPACITY,
};
use ratatui::text::Line;

fn score(value: f32) -> Score {
    Score::from_bits(value.to_bits()).expect("a number")
}

fn fragments(count: usize) -> Vec<Fragment> {
    let mut content = String::new();
    let mut lines = Vec::new();
    for i in 0..count {
        content.push_str(&format!("line {}\n", i));
        lines.push(Line::from(format!("line {}", i)));
    }
    File::new("src/lib.rs".to_string(), &content, lines).into_fragments(1, 0)
}

fn results(values: &[f32]) -> Vec<FragmentEvaluation> {
    fragments(values.len())
        .into_iter()
        .zip(values.iter())
        .map(|(fragment, value)| FragmentEvaluation {
            fragment,
            value: score(*value),
        })
        .collect()
}

fn area(width: u16, height: u16) -> Area {
    Area {
        x: 0,
        y: 0,
        width,
        height,
    }
}

fn rect(x: u16, y: u16, width: u16, height: u16) -> Area {
    Area {
        x,
        y,
        width,
        height,
    }
}

fn browsing(values: &[f32]) -> Tui {
    let mut tui = Tui::new(values.len(), Theme::synthwave());
    let step = tui.handle(Some(TuiEvent::SwitchToDisplayData(results(values))), 24);
    assert_eq!(step, Ok(Step::Continue));
    tui
}

fn selected(tui: &mut Tui) -> Option<usize> {
    match tui.render(area(80, 24), 0).expect("a frame").panels {
        Panels::DisplayData(frame) => frame.list_state.selected,
        Panels::GatherData(_) => None,
    }
}

fn press(tui: &mut Tui, nav: Nav, height: u16) -> Option<usize> {
    assert_eq!(tui.handle(Some(TuiEvent::Nav(nav)), height), Ok(Step::Continue));
    selected(tui)
}

#[test]
fn selection_stays_inside_the_list() {
    let mut tui = browsing(&[0.9, 0.8, 0.7, 0.6, 0.5]);
    assert_eq!(selected(&mut tui), Some(0));
    assert_eq!(press(&mut tui, Nav::Up, 24), Some(0));
    assert_eq!(press(&mut tui, Nav::PageUp, 24), Some(0));
    assert_eq!(press(&mut tui, Nav::Down, 24), Some(1));
    assert_eq!(press(&mut tui, Nav::End, 24), Some(4));
    assert_eq!(press(&mut tui, Nav::Down, 24), Some(4));
    assert_eq!(press(&mut tui, Nav::PageDown, 24), Some(4));
    assert_eq!(press(&mut tui, Nav::Home, 24), Some(0));
    assert_eq!(press(&mut tui, Nav::PageDown, 24), Some(4));
    assert_eq!(press(&mut tui, Nav::Up, 24), Some(3));
}

#[test]
fn page_keys_move_by_the_height_less_the_border() {
    let values: Vec<f32> = (0..100).map(|i| 1.0 - i as f32 / 100.0).collect();
    let mut tui = browsing(&values);
    assert_eq!(press(&mut tui, Nav::PageDown, 24), Some(22));
    assert_eq!(press(&mut tui, Nav::PageDown, 24), Some(44));
    assert_eq!(press(&mut tui, Nav::PageUp, 12), Some(34));
    // A terminal too low for a page moves nothing.
    assert_eq!(press(&mut tui, Nav::PageDown, 2), Some(34));
    assert_eq!(press(&mut tui, Nav::PageDown, 1), Some(34));
    assert_eq!(press(&mut tui, Nav::PageUp, 0), Some(34));
    assert_eq!(press(&mut tui, Nav::PageDown, u16::MAX), Some(99));
    assert_eq!(press(&mut tui, Nav::PageUp, u16::MAX), Some(0));
}

#[test]
fn nothing_moves_in_an_empty_list() {
    let mut tui = browsing(&[]);
    for nav in [
        Nav::Down,
        Nav::Up,
        Nav::PageDown,
        Nav::PageUp,
        Nav::End,
        Nav::Home,
    ] {
        assert_eq!(press(&mut tui, nav, 24), Some(0));
    }
    let scene = tui.render(area(80, 24), 0).expect("a frame");
    match scene.panels {
        Panels::DisplayData(frame) => {
            assert!(frame.items.is_empty());
            assert!(matches!(frame.code, CodePanel::Placeholder { .. }));
        }
        Panels::GatherData(_) => panic!("browsing expected"),
    }
}

#[test]
fn moves_do_nothing_while_gathering() {
    let mut tui = Tui::new(3, Theme::synthwave());
    for nav in [Nav::Down, Nav::End, Nav::PageDown] {
        assert_eq!(tui.handle(Some(TuiEvent::Nav(nav)), 24), Ok(Step::Continue));
    }
    let scene = tui.render(area(80, 24), 0).expect("a frame");
    assert!(matches!(scene.panels, Panels::GatherData(_)));
}

#[test]
fn progress_is_refused_while_browsing() {
    let mut tui = browsing(&[0.9, 0.1]);
    let fragment = fragments(1).remove(0);
    assert_eq!(
        tui.handle(Some(TuiEvent::GatherNextFragment(fragment)), 24),
        Err(TuiError::GatherDataStateExpected)
    );
    assert_eq!(
        tui.handle(Some(TuiEvent::GatherNextValue(score(0.5))), 24),
        Err(TuiError::GatherDataStateExpected)
    );
    assert_eq!(
        tui.handle(Some(TuiEvent::GatherIncrementCount), 24),
        Err(TuiError::GatherDataStateExpected)
    );
    // The view is as it was.
    assert_eq!(selected(&mut tui), Some(0));
    assert_eq!(
        TuiError::GatherDataStateExpected.message(),
        "GatherData state expected"
    );
    assert_eq!(
        TuiError::DisplayDataStateExpected.message(),
        "DisplayData state expected"
    );
    assert_eq!(TuiError::NoMoreRects.message(), "No more rects available");
    assert_eq!(NoMoreRects.message(), "No more rects available");
}

#[test]
fn frames_of_the_other_phase_are_refused() {
    let mut gathering = TuiState::new(2);
    assert!(matches!(
        gathering.render_display_data(area(80, 24)),
        Err(TuiError::DisplayDataStateExpected)
    ));
    assert!(matches!(
        gathering.display_frame(&vec![area(40, 24), area(40, 24)], Vec::new()),
        Err(TuiError::DisplayDataStateExpected)
    ));
    let mut browsing = TuiState::new(2);
    browsing
        .state
        .apply(TuiEvent::SwitchToDisplayData(results(&[0.5])), 22)
        .expect("the change to browsing");
    assert!(matches!(
        browsing.render_gather_data(area(80, 24)),
        Err(TuiError::GatherDataStateExpected)
    ));
    assert!(matches!(
        browsing.gather_frame(&vec![area(80, 15), area(80, 4), area(80, 5)]),
        Err(TuiError::GatherDataStateExpected)
    ));
}

#[test]
fn requests_to_draw_and_to_quit_are_passed_on() {
    let mut tui = Tui::new(1, Theme::accessibility());
    assert_eq!(tui.handle(Some(TuiEvent::Render), 24), Ok(Step::Render));
    assert_eq!(tui.handle(Some(TuiEvent::Quit), 24), Ok(Step::Exit));
    assert_eq!(tui.handle(None, 24), Ok(Step::Exit));
    assert_eq!(tui.theme, Theme::accessibility());
}

#[test]
fn gathering_frame_shows_progress() {
    let mut tui = Tui::new(3, Theme::synthwave());
    let all = fragments(3);
    let scene = tui.render(area(80, 24), 1_000).expect("a frame");
    assert_eq!(scene.elapsed, 0);
    match scene.panels {
        Panels::GatherData(frame) => {
            assert_eq!(frame.code_area, rect(0, 0, 80, 15));
            assert_eq!(frame.chart_area, rect(0, 15, 80, 4));
            assert_eq!(frame.gauge_area, rect(0, 19, 80, 5));
            assert_eq!(frame.label, "0/3");
            assert_eq!((frame.count, frame.count_max), (0, 3));
            assert_eq!(frame.columns, 78);
            assert_eq!((frame.filled, frame.parts), (0, 3));
            assert!(frame.samples.is_empty());
            match frame.code {
                CodePanel::Placeholder { title } => assert_eq!(title, " Current code fragment "),
                CodePanel::Fragment { .. } => panic!("no fragment yet"),
            }
        }
        Panels::DisplayData(_) => panic!("gathering expected"),
    }
    assert_eq!(
        scene.regions,
        vec![rect(1, 1, 78, 13), rect(1, 16, 78, 2), rect(1, 20, 78, 3)]
    );

    assert_eq!(
        tui.handle(Some(TuiEvent::GatherNextFragment(all[1].clone())), 24),
        Ok(Step::Continue)
    );
    assert_eq!(
        tui.handle(Some(TuiEvent::GatherNextValue(score(0.25))), 24),
        Ok(Step::Continue)
    );
    assert_eq!(
        tui.handle(Some(TuiEvent::GatherNextValue(score(0.75))), 24),
        Ok(Step::Continue)
    );
    assert_eq!(
        tui.handle(Some(TuiEvent::GatherIncrementCount), 24),
        Ok(Step::Continue)
    );
    let scene = tui.render(area(80, 24), 16_000).expect("a frame");
    assert_eq!(scene.elapsed, 15_000);
    match scene.panels {
        Panels::GatherData(frame) => {
            assert_eq!(frame.label, "1/3");
            let bits: Vec<u32> = frame.samples.iter().map(|s| s.bits()).collect();
            assert_eq!(bits, vec![0.25f32.to_bits(), 0.75f32.to_bits()]);
            match frame.code {
                CodePanel::Fragment { title, lines } => {
                    assert_eq!(title, " src/lib.rs:1 ");
                    assert_eq!(lines, vec![Line::from("line 1")]);
                }
                CodePanel::Placeholder { .. } => panic!("a fragment expected"),
            }
        }
        Panels::DisplayData(_) => panic!("gathering expected"),
    }
    // A clock that went back counts as no time.
    let scene = tui.render(area(80, 24), 5_000).expect("a frame");
    assert_eq!(scene.elapsed, 0);
}

#[test]
fn count_stops_at_the_number_of_fragments() {
    let mut state = GatherDataState::new(2);
    for _ in 0..5 {
        state.increment();
    }
    let frame = state.frame(&vec![area(80, 15), area(80, 4), area(80, 5)]);
    assert_eq!((frame.count, frame.count_max), (2, 2));
    assert_eq!((frame.filled, frame.parts), (2, 2));
    assert_eq!(frame.label, "2/2");
}

#[test]
fn gauge_is_filled_by_the_fragments_done() {
    assert_eq!(gauge_parts(0, 5), (0, 5));
    assert_eq!(gauge_parts(3, 5), (3, 5));
    assert_eq!(gauge_parts(5, 5), (5, 5));
    // Never more than all of it.
    assert_eq!(gauge_parts(7, 5), (5, 5));
    // A run without fragments fills nothing, and has a part all the same.
    assert_eq!(gauge_parts(0, 0), (0, 1));
    assert_eq!(gauge_parts(4, 0), (0, 1));
    assert_eq!(gauge_parts(usize::MAX, usize::MAX), (usize::MAX, usize::MAX));
    let frame = GatherDataState::new(0).frame(&vec![area(80, 15), area(80, 4), area(80, 5)]);
    assert_eq!((frame.filled, frame.parts), (0, 1));
    assert_eq!(frame.label, "0/0");
    let mut state = GatherDataState::new(4);
    state.increment();
    let frame = state.frame(&vec![area(80, 15), area(80, 4), area(80, 5)]);
    assert_eq!((frame.filled, frame.parts), (1, 4));
}

#[test]
fn panels_lie_inside_the_frame() {
    for (x, y, width, height) in [
        (0u16, 0u16, 80u16, 24u16),
        (3, 5, 40, 12),
        (0, 0, 10, 9),
        (0, 0, 10, 8),
        (7, 7, 3, 3),
        (0, 0, 1, 1),
        (0, 0, 0, 0),
        (100, 200, 300, 50),
        (u16::MAX - 10, u16::MAX - 10, 30, 30),
    ] {
        let frame_area = rect(x, y, width, height);
        let bottom = y.saturating_add(height);
        let right = x.saturating_add(width);
        let mut gathering = TuiState::new(3);
        let frame = gathering
            .render_gather_data(frame_area)
            .expect("a gathering frame");
        for panel in [frame.code_area, frame.chart_area, frame.gauge_area] {
            assert_eq!((panel.x, panel.width), (x, width));
            assert!(y <= panel.y && panel.y as u32 + panel.height as u32 <= bottom as u32);
        }
        let mut browsing = TuiState::new(3);
        browsing
            .state
            .apply(TuiEvent::SwitchToDisplayData(results(&[0.5, 0.25])), 22)
            .expect("the change to browsing");
        let frame = browsing
            .render_display_data(frame_area)
            .expect("a browsing frame");
        for panel in [frame.code_area, frame.list_area] {
            assert_eq!((panel.y, panel.height), (y, height));
            assert!(x <= panel.x && panel.x as u32 + panel.width as u32 <= right as u32);
        }
    }
}

#[test]
fn chart_shows_the_latest_scores() {
    let mut state = GatherDataState::new(100);
    for i in 0..100u32 {
        state.remember(score(i as f32 / 100.0));
    }
    // A chart of 12 columns has ten inside its border, and room for ten
    // scores.
    let frame = state.frame(&vec![area(12, 15), area(12, 4), area(12, 5)]);
    assert_eq!(frame.columns, 10);
    let bits: Vec<u32> = frame.samples.iter().map(|s| s.bits()).collect();
    let expected: Vec<u32> = (90..100u32).map(|i| (i as f32 / 100.0).to_bits()).collect();
    assert_eq!(bits, expected);
    // No room inside the border: nothing is shown.
    for width in [0u16, 1, 2] {
        let frame = state.frame(&vec![area(width, 15), area(width, 4), area(width, 5)]);
        assert_eq!(frame.columns, 0);
        assert!(frame.samples.is_empty());
    }
    let frame = state.frame(&vec![area(3, 15), area(3, 4), area(3, 5)]);
    assert_eq!(frame.samples.len(), 1);
    let frame = state.frame(&vec![area(10, 15), area(10, 4), area(10, 5)]);
    assert_eq!(frame.samples.len(), 8);
    let frame = state.frame(&vec![area(200, 15), area(200, 4), area(200, 5)]);
    assert_eq!(frame.samples.len(), 100);
}

#[test]
fn history_forgets_its_oldest_scores() {
    let mut state = GatherDataState::new(1);
    for i in 0..(HISTORY_CAPACITY + 10) {
        state.remember(
            Score::from_bits(i as u32).expect("the pattern of a small positive number"),
        );
    }
    let wide = u16::MAX;
    let frame = state.frame(&vec![area(wide, 15), area(wide, 4), area(wide, 5)]);
    assert_eq!(frame.columns, HISTORY_CAPACITY);
    assert_eq!(frame.samples.len(), HISTORY_CAPACITY);
    assert_eq!(frame.samples[0].bits(), 10);
    assert_eq!(
        frame.samples[HISTORY_CAPACITY - 1].bits(),
        (HISTORY_CAPACITY + 9) as u32
    );
}

#[test]
fn browsing_frame_lists_the_results() {
    let mut tui = browsing(&[0.9, 0.5, 0.125]);
    assert_eq!(press(&mut tui, Nav::Down, 24), Some(1));
    let scene = tui.render(area(80, 24), 40).expect("a frame");
    match scene.panels {
        Panels::DisplayData(frame) => {
            assert_eq!(
                frame.items,
                vec!["src/lib.rs:0 0.900", "src/lib.rs:1 0.500", "src/lib.rs:2 0.125"]
            );
            // The list is as wide as its widest row and its border.
            assert_eq!(frame.list_area, rect(60, 0, 20, 24));
            assert_eq!(frame.code_area, rect(0, 0, 60, 24));
            assert_eq!(
                frame.list_state,
                ListState {
                    offset: 0,
                    selected: Some(1)
                }
            );
            match frame.code {
                CodePanel::Fragment { title, lines } => {
                    assert_eq!(title, " src/lib.rs:1 ");
                    assert_eq!(lines, vec![Line::from("line 1")]);
                }
                CodePanel::Placeholder { .. } => panic!("a fragment expected"),
            }
        }
        Panels::GatherData(_) => panic!("browsing expected"),
    }
    assert_eq!(scene.regions, vec![rect(1, 1, 58, 22), rect(61, 1, 18, 22), Area::zero()]);
}

#[test]
fn list_keeps_where_it_was_scrolled_to() {
    let mut tui = browsing(&[0.9, 0.5, 0.125]);
    tui.scrolled(2);
    match tui.render(area(80, 24), 0).expect("a frame").panels {
        Panels::DisplayData(frame) => assert_eq!(
            frame.list_state,
            ListState {
                offset: 2,
                selected: Some(0)
            }
        ),
        Panels::GatherData(_) => panic!("browsing expected"),
    }
    let mut gathering = Tui::new(1, Theme::synthwave());
    gathering.scrolled(7);
    assert!(matches!(
        gathering.tui_state.state,
        TuiDeepState::GatherData(_)
    ));
    let mut state = ListState {
        offset: 5,
        selected: Some(9),
    };
    state.select(Some(3));
    assert_eq!(
        state,
        ListState {
            offset: 5,
            selected: Some(3)
        }
    );
    state.select(None);
    assert_eq!(state, ListState::default());
}

#[test]
fn a_second_change_to_browsing_starts_the_list_anew() {
    let mut tui = browsing(&[0.9, 0.5, 0.125]);
    assert_eq!(press(&mut tui, Nav::End, 24), Some(2));
    assert_eq!(
        tui.handle(Some(TuiEvent::SwitchToDisplayData(results(&[0.3, 0.2]))), 24),
        Ok(Step::Continue)
    );
    assert_eq!(selected(&mut tui), Some(0));
}

#[test]
fn list_width_follows_the_widest_row() {
    assert_eq!(width_of_list(&Vec::new()), 2);
    assert_eq!(width_of_list(&vec!["abc".to_string(), "a".to_string()]), 5);
    // The width counts bytes.
    assert_eq!(width_of_list(&vec!["→".to_string()]), 5);
    assert_eq!(width_of_list(&vec!["x".repeat(65533)]), 65535);
    assert_eq!(width_of_list(&vec!["x".repeat(65534)]), 65535);
    assert_eq!(width_of_list(&vec!["x".repeat(70000)]), 65535);
    let rows = DisplayDataState::new(results(&[1.0])).items();
    assert_eq!(rows, vec!["src/lib.rs:0 1.000"]);
}

#[test]
fn code_panel_names_the_fragment() {
    let all = fragments(12);
    match make_code(Some(&all[11])) {
        CodePanel::Fragment { title, lines } => {
            assert_eq!(title, " src/lib.rs:11 ");
            assert_eq!(lines, vec![Line::from("line 11")]);
        }
        CodePanel::Placeholder { .. } => panic!("a fragment expected"),
    }
    assert!(matches!(make_code(None), CodePanel::Placeholder { .. }));
}

#[test]
fn regions_are_assigned_until_none_is_free() {
    let mut filter = FxFilter::new(2);
    assert_eq!(filter.assign(rect(1, 1, 10, 10)), Ok(()));
    assert_eq!(filter.assign(rect(20, 1, 10, 10)), Ok(()));
    assert_eq!(filter.assign(rect(40, 1, 10, 10)), Err(NoMoreRects));
    match filter.main_filter() {
        CellFilter::AnyOf(rects) => {
            assert_eq!(rects, vec![rect(1, 1, 10, 10), rect(20, 1, 10, 10)])
        }
        CellFilter::NoneOf(_) => panic!("the inside expected"),
    }
    match filter.border_filter() {
        CellFilter::NoneOf(rects) => {
            assert_eq!(rects, vec![rect(1, 1, 10, 10), rect(20, 1, 10, 10)])
        }
        CellFilter::AnyOf(_) => panic!("the outside expected"),
    }
    filter.reset();
    match filter.main_filter() {
        CellFilter::AnyOf(rects) => assert_eq!(rects, vec![Area::zero(), Area::zero()]),
        CellFilter::NoneOf(_) => panic!("the inside expected"),
    }
    assert_eq!(filter.assign(rect(3, 3, 3, 3)), Ok(()));
    assert_eq!(FxFilter::new(0).assign(Area::zero()), Err(NoMoreRects));
    let mut filter = FxFilter::new(3);
    assert_eq!(
        filter.assign_all(&vec![rect(1, 1, 1, 1), rect(2, 2, 2, 2)]),
        Ok(())
    );
    assert_eq!(
        filter.assign_all(&vec![rect(3, 3, 3, 3), rect(4, 4, 4, 4)]),
        Err(NoMoreRects)
    );
    match filter.main_filter() {
        CellFilter::AnyOf(rects) => assert_eq!(
            rects,
            vec![rect(1, 1, 1, 1), rect(2, 2, 2, 2), rect(3, 3, 3, 3)]
        ),
        CellFilter::NoneOf(_) => panic!("the inside expected"),
    }
}

#[test]
fn a_frame_with_too_many_regions_is_refused() {
    let mut state = TuiState::new(1);
    state.fx_filter = FxFilter::new(2);
    assert!(matches!(
        state.render(area(80, 24), 10),
        Err(TuiError::NoMoreRects)
    ));
    // The time of the last frame stays.
    state.fx_filter = FxFilter::new(3);
    let scene = state.render(area(80, 24), 30).expect("a frame");
    assert_eq!(scene.elapsed, 0);
}

#[test]
fn insets_agree_with_the_terminal_library() {
    let margins = [(0u16, 0u16), (1, 1), (2, 5), (40000, 1), (1, 40000), (u16::MAX, u16::MAX)];
    let rects = [
        (0u16, 0u16, 0u16, 0u16),
        (0, 0, 1, 1),
        (0, 0, 2, 2),
        (3, 4, 10, 20),
        (u16::MAX, u16::MAX, 10, 10),
        (u16::MAX - 1, 7, u16::MAX, u16::MAX),
        (5, 5, 80000u32 as u16, 3),
    ];
    for (x, y, width, height) in rects {
        for (horizontal, vertical) in margins {
            let inner = rect(x, y, width, height).inner(Margin {
                horizontal,
                vertical,
            });
            let expected = ratatui::layout::Rect {
                x,
                y,
                width,
                height,
            }
            .inner(ratatui::layout::Margin::new(horizontal, vertical));
            assert_eq!(
                (inner.x, inner.y, inner.width, inner.height),
                (expected.x, expected.y, expected.width, expected.height)
            );
        }
    }
}

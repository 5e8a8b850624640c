use marlin::colors::Color;
use marlin::entities::{EntityBuilder, ShapeError, ShapeKind, Vertex};
use marlin::marlin::{
    Button, ButtonDimensions, InputEvent, MasterWindowState, MousePosition, PointerButton, Ratio,
    SceneName,
};

fn white() -> Color {
    Color::new(255, 255, 255).unwrap()
}

fn rectangle(left: i32, bottom: i32, right: i32, top: i32) -> Vec<Vertex> {
    vec![
        Vertex::new(left, top, 0, white()),
        Vertex::new(left, bottom, 0, white()),
        Vertex::new(right, bottom, 0, white()),
        Vertex::new(right, top, 0, white()),
    ]
}

fn ratio(num: i64, den: i64) -> Ratio {
    Ratio { num, den }
}

/// The four edges of a button's hit region, as `(left, right, bottom, top)`.
fn edges(b: &Button) -> (Ratio, Ratio, Ratio, Ratio) {
    (b.left_bound(), b.right_bound(), b.bottom_bound(), b.top_bound())
}

fn button(kind: ShapeKind, vs: Vec<Vertex>) -> Button {
    let entity = EntityBuilder::from_shape(kind, vs).ok().unwrap().build(0, 800, 600);
    Button::new(SceneName::Home, SceneName::Grapher, entity)
}

/// Moves the pointer to the window pixel that has the given canvas coordinates in an
/// 800 x 600 window, then presses the left button.
fn click_canvas(state: &mut MasterWindowState, x: i32, y: i32) {
    state.input(&InputEvent::PointerMoved { x: x + 400, y: 300 - y });
    state.input(&InputEvent::PointerPressed(PointerButton::Left));
}

#[test]
fn scene_names() {
    assert_eq!(SceneName::Home.name(), "Home");
    assert_eq!(SceneName::RootPicker.name(), "RootPicker");
    assert_eq!(SceneName::Grapher.name(), "Grapher");
    assert_eq!(SceneName::Simulation.name(), "Simulation");
}

#[test]
fn canvas_is_centered_and_points_up() {
    let mut m = MousePosition::new(400, 300, 800, 600);
    assert_eq!((m.canvas_x(), m.canvas_y()), (0, 0));
    m.update_from_window_coords(0, 0);
    assert_eq!((m.canvas_x(), m.canvas_y()), (-400, 300));
    m.update_from_window_coords(800, 600);
    assert_eq!((m.canvas_x(), m.canvas_y()), (400, -300));
}

#[test]
fn canvas_coords_round_trip() {
    let mut m = MousePosition::new(0, 0, 801, 601);
    m.update_from_canvas_coords(-37, 12);
    assert_eq!((m.canvas_x(), m.canvas_y()), (-37, 12));
}

#[test]
fn window_dimensions_move_the_canvas_origin() {
    let mut m = MousePosition::new(100, 100, 200, 200);
    assert_eq!((m.canvas_x(), m.canvas_y()), (0, 0));
    m.update_window_dimensions(400, 100);
    assert_eq!((m.canvas_x(), m.canvas_y()), (-100, -50));
}

#[test]
fn between_includes_its_bounds() {
    let mut m = MousePosition::new(0, 0, 800, 600);
    m.update_from_canvas_coords(10, -5);
    assert!(m.between(10, 20, -5, 0));
    assert!(m.between(0, 10, -10, -5));
    assert!(!m.between(11, 20, -5, 0));
    assert!(!m.between(0, 9, -5, 0));
    assert!(!m.between(0, 20, -4, 0));
    assert!(!m.between(0, 20, -10, -6));
}

#[test]
fn button_dimensions_new() {
    let d = ButtonDimensions::new(400, 100);
    assert_eq!((d.horizontal, d.vertical), (400, 100));
}

#[test]
fn button_bounds_are_two_sevenths_of_its_size() {
    let b = button(ShapeKind::Rectangle, rectangle(-350, -175, 350, 175));
    assert_eq!((b.dimensions().horizontal, b.dimensions().vertical), (700, 350));
    // center 0 -+ 700 / 3.5 = 200 and 0 -+ 350 / 3.5 = 100, over the denominator 7 * 4
    assert_eq!(
        edges(&b),
        (ratio(-5600, 28), ratio(5600, 28), ratio(-2800, 28), ratio(2800, 28))
    );
    assert_eq!(b.inhabiting_scene(), SceneName::Home);
    assert_eq!(b.scene_request(), SceneName::Grapher);
}

#[test]
fn button_bounds_are_exact() {
    let b = button(ShapeKind::Rectangle, rectangle(-200, -50, 200, 50));
    // 400 / 3.5 = 114.28..., 100 / 3.5 = 28.57...
    assert_eq!(
        edges(&b),
        (ratio(-3200, 28), ratio(3200, 28), ratio(-800, 28), ratio(800, 28))
    );
}

#[test]
fn button_center_is_the_mean_of_its_vertices() {
    let vs = vec![
        Vertex::new(0, 0, 0, white()),
        Vertex::new(70, 0, 0, white()),
        Vertex::new(0, 70, 0, white()),
    ];
    let b = button(ShapeKind::Triangle, vs);
    // center 70/3, reach 70 / 3.5 = 20: edges 10/3 and 130/3
    assert_eq!(edges(&b), (ratio(70, 21), ratio(910, 21), ratio(70, 21), ratio(910, 21)));
}

#[test]
fn narrow_button_edges_do_not_cross() {
    let vs = vec![
        Vertex::new(0, 0, 0, white()),
        Vertex::new(0, 5, 0, white()),
        Vertex::new(1, 0, 0, white()),
    ];
    let b = button(ShapeKind::Triangle, vs);
    // center 1/3, reach 1 / 3.5: edges 1/21 and 13/21
    assert_eq!((b.left_bound(), b.right_bound()), (ratio(1, 21), ratio(13, 21)));
    assert!(b.left_bound().num <= b.right_bound().num);
}

#[test]
fn circle_button_spans_its_control_vertex() {
    let b = button(ShapeKind::Circle(350), vec![Vertex::new(10, -20, 0, white())]);
    assert_eq!((b.dimensions().horizontal, b.dimensions().vertical), (0, 0));
    assert_eq!(edges(&b), (ratio(70, 7), ratio(70, 7), ratio(-140, 7), ratio(-140, 7)));
}

#[test]
fn circle_button_is_hit_only_at_its_center() {
    let mut state = MasterWindowState::new(800, 600);
    state.add_button(&SceneName::Home, &ShapeKind::Circle(350), vec![Vertex::new(0, 0, 0, white())], SceneName::Grapher).unwrap();
    click_canvas(&mut state, 1, 0);
    assert_eq!(state.current_scene(), SceneName::Home);
    click_canvas(&mut state, 0, 0);
    assert_eq!(state.current_scene(), SceneName::Grapher);
}

#[test]
fn pointer_on_a_bound_is_inside_and_one_beyond_is_outside() {
    let mut state = MasterWindowState::new(800, 600);
    state.add_button(&SceneName::Home, &ShapeKind::Rectangle, rectangle(-350, -175, 350, 175), SceneName::Grapher).unwrap();
    let b = &state.buttons()[0];
    assert_eq!(
        edges(b),
        (ratio(-5600, 28), ratio(5600, 28), ratio(-2800, 28), ratio(2800, 28))
    );
    for (x, y) in [(-200, 0), (200, 0), (0, -100), (0, 100), (-200, 100), (200, -100)] {
        let mut s = MasterWindowState::new(800, 600);
        s.add_button(&SceneName::Home, &ShapeKind::Rectangle, rectangle(-350, -175, 350, 175), SceneName::Grapher).unwrap();
        click_canvas(&mut s, x, y);
        assert_eq!(s.current_scene(), SceneName::Grapher, "({}, {}) should be inside", x, y);
    }
    for (x, y) in [(-201, 0), (201, 0), (0, -101), (0, 101)] {
        let mut s = MasterWindowState::new(800, 600);
        s.add_button(&SceneName::Home, &ShapeKind::Rectangle, rectangle(-350, -175, 350, 175), SceneName::Grapher).unwrap();
        click_canvas(&mut s, x, y);
        assert_eq!(s.current_scene(), SceneName::Home, "({}, {}) should be outside", x, y);
    }
}

#[test]
fn clicking_the_centered_button_follows_its_request() {
    let mut state = MasterWindowState::new(800, 600);
    let request = state.next_scene();
    state.add_button(&SceneName::Home, &ShapeKind::Rectangle, rectangle(-200, -50, 200, 50), request).unwrap();
    click_canvas(&mut state, 250, 0);
    assert_eq!(state.current_scene(), SceneName::Home);
    click_canvas(&mut state, 0, 0);
    assert_eq!(state.current_scene(), SceneName::RootPicker);
}

#[test]
fn first_registered_button_wins() {
    let mut state = MasterWindowState::new(800, 600);
    state.add_button(&SceneName::Home, &ShapeKind::Rectangle, rectangle(-350, -175, 350, 175), SceneName::Simulation).unwrap();
    state.add_button(&SceneName::Home, &ShapeKind::Rectangle, rectangle(-350, -175, 350, 175), SceneName::Grapher).unwrap();
    click_canvas(&mut state, 0, 0);
    assert_eq!(state.current_scene(), SceneName::Simulation);
}

#[test]
fn buttons_of_other_scenes_do_not_react() {
    let mut state = MasterWindowState::new(800, 600);
    state.add_button(&SceneName::Grapher, &ShapeKind::Rectangle, rectangle(-350, -175, 350, 175), SceneName::Simulation).unwrap();
    click_canvas(&mut state, 0, 0);
    assert_eq!(state.current_scene(), SceneName::Home);
}

#[test]
fn only_left_presses_click() {
    let mut state = MasterWindowState::new(800, 600);
    state.add_button(&SceneName::Home, &ShapeKind::Rectangle, rectangle(-350, -175, 350, 175), SceneName::Grapher).unwrap();
    state.input(&InputEvent::PointerMoved { x: 400, y: 300 });
    state.input(&InputEvent::PointerPressed(PointerButton::Right));
    state.input(&InputEvent::PointerReleased(PointerButton::Left));
    assert_eq!(state.current_scene(), SceneName::Home);
    state.input(&InputEvent::PointerPressed(PointerButton::Left));
    assert_eq!(state.current_scene(), SceneName::Grapher);
}

#[test]
fn next_scene_cycles_through_all_four() {
    let mut state = MasterWindowState::new(800, 600);
    let mut seen = vec![state.current_scene()];
    for scene in [SceneName::Home, SceneName::RootPicker, SceneName::Grapher, SceneName::Simulation] {
        let next = state.next_scene();
        state.add_button(&scene, &ShapeKind::Rectangle, rectangle(-350, -175, 350, 175), next).unwrap();
        click_canvas(&mut state, 0, 0);
        seen.push(state.current_scene());
    }
    assert_eq!(
        seen,
        vec![
            SceneName::Home,
            SceneName::RootPicker,
            SceneName::Grapher,
            SceneName::Simulation,
            SceneName::Home
        ]
    );
}

#[test]
fn previous_scene_follows_its_table() {
    let mut state = MasterWindowState::new(800, 600);
    assert_eq!(state.previous_scene(), SceneName::Home);
    let mut expected = vec![];
    for scene in [SceneName::Home, SceneName::RootPicker, SceneName::Grapher] {
        let next = state.next_scene();
        state.add_button(&scene, &ShapeKind::Rectangle, rectangle(-350, -175, 350, 175), next).unwrap();
        click_canvas(&mut state, 0, 0);
        expected.push(state.previous_scene());
    }
    assert_eq!(expected, vec![SceneName::Home, SceneName::RootPicker, SceneName::Grapher]);
}

#[test]
fn resize_to_zero_is_ignored() {
    let mut state = MasterWindowState::new(800, 600);
    assert!(!state.resize(0, 600));
    assert_eq!(state.size(), (800, 600));
    assert!(!state.resize(800, 0));
    assert_eq!(state.size(), (800, 600));
    assert!(!state.resize(0, 0));
    assert_eq!(state.size(), (800, 600));
}

#[test]
fn resize_moves_the_canvas_origin() {
    let mut state = MasterWindowState::new(800, 600);
    state.input(&InputEvent::PointerMoved { x: 400, y: 300 });
    assert!(state.resize(1000, 700));
    assert_eq!(state.size(), (1000, 700));
    let m = state.mouse_position();
    assert_eq!((m.canvas_x(), m.canvas_y()), (-100, 50));
}

#[test]
fn shapes_are_appended_under_fresh_handles() {
    let mut state = MasterWindowState::new(800, 600);
    let center = vec![Vertex::new(0, 0, 0, white())];
    assert_eq!(state.add_shape(&SceneName::Home, &ShapeKind::Circle(500), center.clone()), Ok(0));
    assert_eq!(state.add_button(&SceneName::Home, &ShapeKind::Rectangle, rectangle(-200, -50, 200, 50), SceneName::RootPicker), Ok(1));
    assert_eq!(state.add_shape(&SceneName::RootPicker, &ShapeKind::Circle(500), center.clone()), Ok(2));
    assert_eq!(state.add_shape(&SceneName::Home, &ShapeKind::Triangle, rectangle(0, 0, 1, 1)[..3].to_vec()), Ok(3));
    assert_eq!(state.meshes(), 4);
    assert_eq!(state.entities(SceneName::Home).len(), 2);
    assert_eq!(state.entities(SceneName::Home)[1].kind(), ShapeKind::Triangle);
    assert_eq!(state.entities(SceneName::RootPicker).len(), 1);
    assert_eq!(state.entities(SceneName::Grapher).len(), 0);
    assert_eq!(state.entities(SceneName::Home)[0].viewport(), (800, 600));
    assert_eq!(state.draw_order(), vec![0, 3, 1]);
}

#[test]
fn malformed_shapes_change_nothing() {
    let mut state = MasterWindowState::new(800, 600);
    assert_eq!(
        state.add_shape(&SceneName::Home, &ShapeKind::Rectangle, rectangle(0, 0, 1, 1)[..3].to_vec()),
        Err(ShapeError::VertexUnderspecification(ShapeKind::Rectangle))
    );
    assert_eq!(
        state.add_button(&SceneName::Home, &ShapeKind::Circle(5), rectangle(0, 0, 1, 1), SceneName::Grapher),
        Err(ShapeError::VertexOverspecification(ShapeKind::Circle(5)))
    );
    assert_eq!(state.meshes(), 0);
    assert!(state.buttons().is_empty());
    assert!(state.entities(SceneName::Home).is_empty());
}

#[test]
fn draw_order_follows_the_current_scene() {
    let mut state = MasterWindowState::new(800, 600);
    let center = vec![Vertex::new(0, 0, 0, white())];
    state.add_shape(&SceneName::Home, &ShapeKind::Circle(500), center.clone()).unwrap();
    state.add_button(&SceneName::Home, &ShapeKind::Rectangle, rectangle(-200, -50, 200, 50), SceneName::RootPicker).unwrap();
    state.add_shape(&SceneName::RootPicker, &ShapeKind::Circle(500), center.clone()).unwrap();
    state.add_button(&SceneName::RootPicker, &ShapeKind::Rectangle, rectangle(-200, -50, 200, 50), SceneName::Home).unwrap();
    let mut entity = state.add_shape(&SceneName::RootPicker, &ShapeKind::Circle(10), center.clone()).unwrap();
    assert_eq!(entity, 4);
    assert_eq!(state.draw_order(), vec![0, 1]);
    click_canvas(&mut state, 0, 0);
    assert_eq!(state.current_scene(), SceneName::RootPicker);
    assert_eq!(state.draw_order(), vec![2, 4, 3]);
    entity = state.meshes();
    state.add_entity(
        &SceneName::RootPicker,
        EntityBuilder::from_shape(ShapeKind::Circle(3), center).ok().unwrap().build(entity, 800, 600),
    );
    assert_eq!(state.draw_order(), vec![2, 4, 5, 3]);
}

use lazymusic::style::{
    Borders, Color, HasBorderStyle, HasBorderStyleSetter, HasTitleStyle, HasTitleStyleSetter,
    HasTuiStyle, Modifier, Style,
};
use lazymusic::tui::frame::{Draw, Frame, Shape, Text};
use lazymusic::tui::layout::{horizontal, vertical};
use lazymusic::tui::navbar::{NavbarItem, NavbarTui};
use lazymusic::tui::player::artist::ArtistTui;
use lazymusic::tui::player::playback::{PlaybackState, PlaybackTui};
use lazymusic::tui::player::playback_mode::{PlaybackMode, PlaybackModeTui};
use lazymusic::tui::player::playback_progress::PlaybackProgressTui;
use lazymusic::tui::player::track::TrackTui;
use lazymusic::tui::player::volume::VolumeTui;
use lazymusic::tui::player::PlayerTui;
use lazymusic::tui::progress::{ProgressTui, Ratio};
use lazymusic::tui::root::RootTui;
use lazymusic::tui::router_view::RouterViewTui;
use lazymusic::tui::traits::{HasWidgets, RenderTui, TuiBlock, TuiEventHandle};
use lazymusic::tui::types::{Constraint, Direction, Duration, Rect, TuiEnent};
use lazymusic::tui::widget::Widget;

fn line_text(draw: &Draw) -> Option<String> {
    match &draw.shape {
        Shape::Paragraph(paragraph) => match &paragraph.text {
            Text::Raw(text) => Some(text.clone()),
            Text::Line(spans) => Some(spans.iter().map(|s| s.content.as_str()).collect()),
        },
        _ => None,
    }
}

fn texts(frame: &Frame) -> Vec<String> {
    frame.draws().iter().filter_map(line_text).collect()
}

#[test]
fn lookup_finds_the_first_child_of_a_type() {
    let mut player = PlayerTui::default();
    assert_eq!(player.get_widgets().len(), 6);
    assert_eq!(player.get_widget::<VolumeTui>().unwrap().volume(), 50);
    assert_eq!(player.get_widget::<ArtistTui>().unwrap().artist(), "Not Artist");
    assert!(player.get_widget::<NavbarTui>().is_none());
    assert!(player.get_widget::<PlayerTui>().is_none());

    // Of two children of one type only the first is reached.
    let mut second = VolumeTui::default();
    second.set_volume(7);
    player.get_widgets_mut().push(Widget::Volume(second));
    assert_eq!(player.get_widget::<VolumeTui>().unwrap().volume(), 50);
    player.get_widget_mut::<VolumeTui>().unwrap().set_volume(9);
    assert_eq!(player.get_widget::<VolumeTui>().unwrap().volume(), 9);
    match &player.get_widgets()[6] {
        Widget::Volume(last) => assert_eq!(last.volume(), 7),
        _ => panic!("the last child is a volume meter"),
    }

    let mut first = VolumeTui::default();
    first.set_volume(1);
    player.get_widgets_mut().insert(0, Widget::Volume(first));
    assert_eq!(player.get_widget::<VolumeTui>().unwrap().volume(), 1);
}

#[test]
fn lookup_in_an_empty_container_finds_nothing() {
    let mut router = RouterViewTui::default();
    assert!(router.get_widget::<VolumeTui>().is_none());
    assert!(router.get_widget_mut::<RouterViewTui>().is_none());
    assert_eq!(router.get_widgets().len(), 0);
}

#[test]
fn progress_event_updates_the_readout() {
    let mut root = RootTui::default();
    root.event_handle(TuiEnent::PlaybackProgress(
        Duration::from_secs(125),
        Duration::from_secs(245),
    ));
    let player = root.get_widget::<PlayerTui>().unwrap();
    let readout = player.get_widget::<PlaybackProgressTui>().unwrap();
    assert_eq!(readout.progress, Duration::from_secs(125));
    assert_eq!(readout.duration, Duration::from_secs(245));

    let mut frame = Frame::new(Rect::new(0, 0, 120, 40));
    let area = frame.area();
    readout.render(&mut frame, area);
    assert_eq!(texts(&frame), vec!["\u{e641} 02:05 / 04:05".to_string()]);

    let mut frame = Frame::new(Rect::new(0, 0, 120, 40));
    root.render(&mut frame, area);
    assert!(texts(&frame).contains(&"\u{e641} 02:05 / 04:05".to_string()));
}

#[test]
fn player_routes_each_event_to_its_child() {
    let mut player = PlayerTui::default();
    player.event_handle(TuiEnent::Playback);
    player.event_handle(TuiEnent::Volume(-60));
    player.event_handle(TuiEnent::PlaybackMode);
    player.event_handle(TuiEnent::Artist("Someone".to_string()));
    player.event_handle(TuiEnent::Track("Something".to_string()));
    player.event_handle(TuiEnent::Navbar(Direction::Right));
    assert_eq!(
        player.get_widget::<PlaybackTui>().unwrap().state(),
        PlaybackState::Playing
    );
    assert_eq!(player.get_widget::<VolumeTui>().unwrap().volume(), 0);
    assert_eq!(
        player.get_widget::<PlaybackModeTui>().unwrap().mode(),
        PlaybackMode::Random
    );
    assert_eq!(player.get_widget::<ArtistTui>().unwrap().artist(), "Someone");
    assert_eq!(player.get_widget::<TrackTui>().unwrap().track(), "Something");
    assert_eq!(player.get_widgets().len(), 6);
    assert!(matches!(player.get_widgets()[0], Widget::Playback(_)));
    assert!(matches!(player.get_widgets()[5], Widget::PlaybackMode(_)));
}

#[test]
fn event_without_its_child_changes_nothing() {
    let mut player = PlayerTui::default();
    player.get_widgets_mut().remove(2);
    player.event_handle(TuiEnent::Volume(10));
    assert!(player.get_widget::<VolumeTui>().is_none());
    assert_eq!(player.get_widgets().len(), 5);

    let mut root = RootTui::default();
    root.get_widgets_mut().clear();
    root.event_handle(TuiEnent::Playback);
    root.event_handle(TuiEnent::Navbar(Direction::Left));
    assert_eq!(root.get_widgets().len(), 0);
}

#[test]
fn root_routes_navigation_to_the_navbar() {
    let mut root = RootTui::default();
    root.event_handle(TuiEnent::Navbar(Direction::Right));
    root.event_handle(TuiEnent::Navbar(Direction::Right));
    root.event_handle(TuiEnent::NavbarIcon(">>".to_string(), "|".to_string()));
    root.event_handle(TuiEnent::Volume(5));
    let navbar = root.get_widget::<NavbarTui>().unwrap();
    assert_eq!(navbar.selected_item, NavbarItem::Directories);
    assert_eq!(navbar.selected_icon, ">>");
    assert_eq!(navbar.not_selected_icon, "|");
    let player = root.get_widget::<PlayerTui>().unwrap();
    assert_eq!(player.get_widget::<VolumeTui>().unwrap().volume(), 55);
}

#[test]
fn navbar_items_go_round() {
    assert_eq!(NavbarItem::default(), NavbarItem::Queue);
    assert_eq!(NavbarItem::Queue.next(), NavbarItem::Logs);
    assert_eq!(NavbarItem::Search.next(), NavbarItem::Queue);
    assert_eq!(NavbarItem::Queue.prev(), NavbarItem::Search);
    assert_eq!(NavbarItem::Albums.prev(), NavbarItem::AlbumArtists);
    for item in NavbarItem::variants() {
        assert_eq!(item.next().prev(), item);
        assert_eq!(item.prev().next(), item);
        assert_eq!(NavbarItem::variants()[item.index()], item);
        assert_eq!(item.name(), format!("{:?}", item));
    }
    let mut navbar = NavbarTui::default();
    navbar.toggle_navbar(Direction::Left);
    assert_eq!(navbar.selected_item, NavbarItem::Search);
    navbar.toggle_navbar(Direction::Right);
    assert_eq!(navbar.selected_item, NavbarItem::Queue);
    let before = navbar.selected_icon.as_ptr();
    navbar.set_icon("\u{e0b0}", "x");
    assert_eq!(navbar.selected_icon.as_ptr(), before);
    assert_eq!(navbar.not_selected_icon, "x");
}

#[test]
fn navbar_line_has_a_separator_and_a_name_for_each_page() {
    let navbar = NavbarTui::default();
    assert!(navbar.build_navbar_line(7).is_empty());

    let line = navbar.build_navbar_line(160);
    assert_eq!(line.len(), 17);
    // 160 / 8 - 3 = 17 cells for each name, a space on either side.
    assert_eq!(line[1].content, "       Queue       ");
    assert_eq!(line[3].content, "       Logs        ");
    assert_eq!(line[5].content, "    Directories    ");
    assert_eq!(line[9].content, "   AlbumArtists    ");
    assert_eq!(line[1].style, navbar.selected);
    assert_eq!(line[3].style, navbar.not_selected);
    // Before the first page: from the background of the widget to the page.
    assert_eq!(line[0].content, "\u{e0b0}");
    assert_eq!(
        line[0].style,
        Style::new().bg(Color::Rgb(130, 170, 255)).fg(Color::Rgb(34, 36, 54))
    );
    // From the selected page to the next one.
    assert_eq!(line[2].content, "\u{e0b0}");
    assert_eq!(
        line[2].style,
        Style::new().fg(Color::Rgb(130, 170, 255)).bg(Color::Rgb(47, 51, 77))
    );
    // Between two pages that are not selected.
    assert_eq!(line[4].content, "\u{e0b1}");
    assert_eq!(line[4].style, navbar.not_selected);
    // After the last page: back to the background of the widget.
    assert_eq!(line[16].content, "\u{e0b0}");
    assert_eq!(
        line[16].style,
        Style::new().fg(Color::Rgb(47, 51, 77)).bg(Color::Rgb(34, 36, 54))
    );

    // A name that does not fit its field is not cut.
    let narrow = navbar.build_navbar_line(8);
    assert_eq!(narrow[1].content, " Queue ");
    assert_eq!(narrow[9].content, " AlbumArtists ");

    let mut moved = NavbarTui::default();
    moved.toggle_navbar(Direction::Right);
    let line = moved.build_navbar_line(160);
    assert_eq!(
        line[0].style,
        Style::new().bg(Color::Rgb(47, 51, 77)).fg(Color::Rgb(34, 36, 54))
    );
    assert_eq!(
        line[2].style,
        Style::new().fg(Color::Rgb(47, 51, 77)).bg(Color::Rgb(130, 170, 255))
    );
    assert_eq!(line[3].style, moved.selected);
}

#[test]
fn navbar_draws_its_block_and_its_line() {
    let navbar = NavbarTui::default();
    let mut frame = Frame::new(Rect::new(0, 0, 80, 3));
    let area = frame.area();
    navbar.render(&mut frame, area);
    assert_eq!(frame.draws().len(), 2);
    match &frame.draws()[0].shape {
        Shape::Block(block) => {
            assert_eq!(block.style.bg, Some(Color::Rgb(34, 36, 54)));
            assert_eq!(block.borders, Borders::none());
            assert_eq!(block.title_style.add_modifier, Modifier::italic());
        }
        _ => panic!("the block comes first"),
    }
    match &frame.draws()[1].shape {
        Shape::Paragraph(paragraph) => {
            assert_eq!(paragraph.style, Style::new().add_modifier(Modifier::italic()));
            match &paragraph.text {
                Text::Line(spans) => assert_eq!(spans.len(), 17),
                _ => panic!("a line of spans"),
            }
        }
        _ => panic!("the line comes second"),
    }
    assert_eq!(frame.draws()[1].area, Rect::new(0, 0, 80, 3));
}

#[test]
fn inner_region_leaves_room_for_title_and_edges() {
    let mut widget = RouterViewTui::default();
    let area = Rect::new(0, 0, 10, 5);
    assert!(!widget.has_border());
    assert_eq!(widget.get_inner(area), area);

    widget.set_border(Borders::all());
    assert!(widget.has_border());
    assert_eq!(widget.get_inner(area), Rect::new(1, 1, 8, 3));

    widget.set_border(Borders::from_bits(Borders::TOP));
    assert_eq!(widget.get_inner(area), Rect::new(0, 1, 10, 4));

    // The title takes the top row whatever the edges are.
    widget.set_border(Borders::from_bits(Borders::LEFT));
    assert_eq!(widget.get_inner(area), Rect::new(1, 1, 9, 4));

    widget.set_border(Borders::from_bits(Borders::BOTTOM | Borders::RIGHT));
    assert_eq!(widget.get_inner(area), Rect::new(0, 1, 9, 3));

    widget.set_border(Borders::all());
    widget.set_title_text("a title".to_string());
    assert_eq!(widget.title_text(), "a title");
    assert_eq!(widget.get_inner(area), Rect::new(1, 1, 8, 3));
    assert_eq!(widget.get_inner(Rect::new(3, 4, 0, 0)), Rect::new(3, 4, 0, 0));
    assert_eq!(widget.get_inner(Rect::new(3, 4, 1, 1)), Rect::new(4, 5, 0, 0));
    assert_eq!(widget.get_inner(Rect::new(3, 4, 2, 2)), Rect::new(4, 5, 0, 0));
    assert_eq!(
        widget.get_inner(Rect::new(65535, 65535, 9, 9)),
        Rect::new(65535, 65535, 7, 7)
    );
    assert_eq!(
        widget.get_inner(Rect::new(65530, 0, 3, 3)),
        Rect::new(65531, 1, 1, 1)
    );
}

#[test]
fn layout_gives_one_region_for_each_constraint() {
    let area = Rect::new(0, 0, 100, 30);
    let wanted = vec![Constraint::Length(5), Constraint::Min(0)];
    let rows = vertical(&wanted, Rect::new(2, 2, 10, 10));
    assert_eq!(rows, vec![Rect::new(2, 2, 10, 5), Rect::new(2, 7, 10, 5)]);
    let wanted = vec![Constraint::Ratio(1, 3), Constraint::Ratio(2, 3)];
    let columns = horizontal(&wanted, Rect::new(0, 0, 9, 2));
    assert_eq!(columns, vec![Rect::new(0, 0, 3, 2), Rect::new(3, 0, 6, 2)]);
    let wanted = vec![
        Constraint::Min(4),
        Constraint::Min(3),
        Constraint::Fill(20),
        Constraint::Max(1),
        Constraint::Percentage(10),
        Constraint::Length(1),
    ];
    assert_eq!(vertical(&wanted, area).len(), 6);
    assert_eq!(horizontal(&wanted, Rect::new(0, 0, 0, 0)).len(), 6);
    assert_eq!(vertical(&Vec::new(), area).len(), 0);
    let odd = vec![Constraint::Ratio(1, 0), Constraint::Ratio(0, 0), Constraint::Percentage(300)];
    assert_eq!(horizontal(&odd, area).len(), 3);
    assert_eq!(vertical(&odd, Rect::new(65535, 65535, 65535, 65535)).len(), 3);
}

#[test]
fn rendering_does_not_fail_on_empty_regions() {
    let root = RootTui::default();
    for area in [
        Rect::new(0, 0, 0, 0),
        Rect::new(0, 0, 1, 1),
        Rect::new(5, 5, 0, 10),
        Rect::new(65535, 65535, 65535, 65535),
    ] {
        let mut frame = Frame::new(area);
        root.render(&mut frame, area);
        // The root, the player with six children, the bar, the progress bar.
        assert_eq!(frame.draws().len(), 1 + 7 + 2 + 4);
    }
}

#[test]
fn root_draws_its_children_from_the_top() {
    let root = RootTui::default();
    let area = Rect::new(0, 0, 120, 40);
    let mut frame = Frame::new(area);
    root.render(&mut frame, area);
    let draws = frame.draws();
    assert_eq!(draws.len(), 14);
    assert!(matches!(draws[0].shape, Shape::Block(_)));
    assert_eq!(draws[0].area, area);
    // The player: its block, then its six children row by row.
    assert!(matches!(draws[1].shape, Shape::Block(_)));
    assert_eq!(line_text(&draws[2]).unwrap(), " \u{f04d}  Stopped");
    assert_eq!(line_text(&draws[3]).unwrap(), "\u{f075a} Not Song");
    assert_eq!(line_text(&draws[5]).unwrap(), "\u{e641} 00:00 / 00:00");
    assert_eq!(line_text(&draws[6]).unwrap(), "Not Artist");
    assert_eq!(
        line_text(&draws[7]).unwrap(),
        "Repeat | Random | Consume | Single"
    );
    assert_eq!(draws[2].area.y, draws[3].area.y);
    assert!(draws[5].area.y > draws[2].area.y);
    assert!(draws[3].area.x > draws[2].area.x);
    // The navigation bar below the player, the progress bar at the bottom.
    assert!(matches!(draws[8].shape, Shape::Block(_)));
    assert!(draws[8].area.y >= draws[1].area.y + draws[1].area.height);
    assert!(matches!(draws[12].shape, Shape::Gauge(_)));
    // The progress bar takes the third of the four rows; the last one,
    // one cell high, stays empty.
    assert!(draws[10].area.y >= draws[8].area.y + draws[8].area.height);
    assert_eq!(draws[10].area.y + draws[10].area.height, 39);
    // What was drawn before stays in front.
    let mut again = Frame::new(area);
    again.render_widget(draws[0].shape.clone(), Rect::new(1, 1, 1, 1));
    root.render(&mut again, area);
    assert_eq!(again.draws().len(), 15);
    assert_eq!(again.draws()[0].area, Rect::new(1, 1, 1, 1));
}

#[test]
fn more_children_than_regions_are_not_drawn() {
    let mut root = RootTui::default();
    root.get_widgets_mut().push(Widget::Artist(ArtistTui::default()));
    root.get_widgets_mut().push(Widget::Track(TrackTui::default()));
    let area = Rect::new(0, 0, 120, 40);
    let mut frame = Frame::new(area);
    root.render(&mut frame, area);
    // Four rows: the fourth child is drawn, the fifth is not.
    assert_eq!(frame.draws().len(), 15);

    let player = PlayerTui::default();
    let mut frame = Frame::new(area);
    player.render_in(&mut frame, area, &vec![area, area]);
    assert_eq!(frame.draws().len(), 3);
}

#[test]
fn toggling_all_borders_reaches_every_widget_with_a_border() {
    let mut root = RootTui::default();
    assert!(!root.has_widgets_border::<ProgressTui>());
    assert!(!root.has_widgets_border::<PlayerTui>());
    assert!(!root.has_widgets_border::<RouterViewTui>());
    root.toggle_all_border();
    assert_eq!(root.borders(), Borders::all());
    assert!(root.has_border());
    assert!(root.get_widget::<PlayerTui>().unwrap().has_border());
    assert!(root.get_widget::<NavbarTui>().unwrap().has_border());
    assert!(root.get_widget::<ProgressTui>().unwrap().has_border());
    assert!(root.has_widgets_border::<ProgressTui>());
    assert_eq!(root.get_widget::<PlayerTui>().unwrap().get_widgets().len(), 6);

    // With a border on the progress bar the last row is three cells high,
    // and the root keeps its own edges free.
    let area = Rect::new(0, 0, 120, 40);
    let mut frame = Frame::new(area);
    root.render(&mut frame, area);
    assert_eq!(frame.draws()[10].area.y + frame.draws()[10].area.height, 36);
    assert_eq!(frame.draws()[1].area.x, 1);
    assert_eq!(frame.draws()[1].area.y, 1);

    // A widget that shows some edges shows none after a toggle.
    root.get_widget_mut::<NavbarTui>()
        .unwrap()
        .set_border(Borders::from_bits(Borders::TOP));
    root.toggle_all_border();
    assert!(!root.has_border());
    assert!(!root.get_widget::<PlayerTui>().unwrap().has_border());
    assert!(!root.get_widget::<NavbarTui>().unwrap().has_border());
    assert!(!root.get_widget::<ProgressTui>().unwrap().has_border());
}

#[test]
fn toggling_goes_down_through_nested_containers() {
    let mut inner = RouterViewTui::default();
    inner.get_widgets_mut().push(Widget::Navbar(NavbarTui::default()));
    inner.get_widgets_mut().push(Widget::Volume(VolumeTui::default()));
    let mut outer = RouterViewTui::default();
    outer.get_widgets_mut().push(Widget::RouterView(inner));
    let mut node = Widget::RouterView(outer);
    node.toggle_all_border();
    match &node {
        Widget::RouterView(outer) => {
            assert!(outer.has_border());
            match &outer.get_widgets()[0] {
                Widget::RouterView(inner) => {
                    assert!(inner.has_border());
                    assert!(inner.get_widget::<NavbarTui>().unwrap().has_border());
                    assert_eq!(inner.get_widget::<VolumeTui>().unwrap().volume(), 50);
                }
                _ => panic!("the kind of a widget does not change"),
            }
        }
        _ => panic!("the kind of a widget does not change"),
    }
}

#[test]
fn capabilities_go_by_the_kind_of_the_widget() {
    let mut nodes = vec![
        Widget::Playback(PlaybackTui::default()),
        Widget::Track(TrackTui::default()),
        Widget::Volume(VolumeTui::default()),
        Widget::PlaybackProgress(PlaybackProgressTui::default()),
        Widget::Artist(ArtistTui::default()),
        Widget::PlaybackMode(PlaybackModeTui::default()),
        Widget::Player(PlayerTui::default()),
        Widget::Navbar(NavbarTui::default()),
        Widget::Progress(ProgressTui::default()),
        Widget::RouterView(RouterViewTui::default()),
    ];
    let events = [false, false, false, false, false, false, true, true, false, true];
    let borders = [false, false, false, false, false, false, true, true, true, true];
    for (i, node) in nodes.iter_mut().enumerate() {
        assert_eq!(node.as_event().is_some(), events[i]);
        assert_eq!(node.as_border_mut().is_some(), borders[i]);
        // Ask, and act only where the capability is there.
        if let Some(handler) = node.as_event_mut() {
            handler.event_handle(TuiEnent::Volume(3));
            handler.event_handle(TuiEnent::Navbar(Direction::Right));
        }
        if let Some(owner) = node.as_border_mut() {
            owner.toggle_all_border();
        }
        assert_eq!(node.as_event().is_some(), events[i]);
        assert_eq!(node.as_event_mut().is_some(), events[i]);
        assert_eq!(node.as_border_mut().is_some(), borders[i]);
    }
    match &nodes[2] {
        Widget::Volume(volume) => assert_eq!(volume.volume(), 50),
        _ => panic!("still a volume meter"),
    }
    match &nodes[6] {
        Widget::Player(player) => {
            assert_eq!(player.get_widget::<VolumeTui>().unwrap().volume(), 53)
        }
        _ => panic!("still a player"),
    }
    assert!(RootTui::default().as_event().is_some());
    assert!(RootTui::default().as_border_mut().is_some());
    match &nodes[7] {
        Widget::Navbar(navbar) => {
            assert_eq!(navbar.selected_item, NavbarItem::Logs);
            assert!(navbar.has_border());
        }
        _ => panic!("still a navigation bar"),
    }
}

#[test]
fn update_progress_sets_the_bar() {
    let mut root = RootTui::default();
    root.update_progress(Ratio::from_bits(0.75f64.to_bits()));
    assert_eq!(
        f64::from_bits(root.get_widget::<ProgressTui>().unwrap().ratio().to_bits()),
        0.75
    );
    root.update_progress(Ratio::from_bits(4.0f64.to_bits()));
    assert_eq!(
        f64::from_bits(root.get_widget::<ProgressTui>().unwrap().ratio().to_bits()),
        1.0
    );
}

#[test]
fn block_of_a_widget_comes_from_its_three_facets() {
    let mut player = PlayerTui::default();
    player.set_title_text("Player".to_string());
    player.set_title_fg(Color::Red);
    player.set_border_fg(Color::Green);
    player.set_border(Borders::all());
    let block = player.to_block();
    assert_eq!(block.title, "Player");
    assert_eq!(block.title_style.fg, Some(Color::Red));
    assert_eq!(block.title_style.bg, Some(Color::Rgb(34, 36, 54)));
    assert_eq!(block.title_style.add_modifier, Modifier::italic());
    assert_eq!(block.borders, Borders::all());
    assert_eq!(
        block.border_style,
        Style::new().bg(Color::Rgb(34, 36, 54)).fg(Color::Green)
    );
    assert_eq!(block.style, player.tui_style());
    assert_eq!(player.border_style(), block.border_style);
    assert_eq!(player.title_style(), block.title_style);
    player.toggle_border();
    assert_eq!(player.borders(), Borders::none());
    player.toggle_border();
    assert_eq!(player.borders(), Borders::all());
}

#[test]
fn widgets_ask_the_layout_for_their_regions() {
    assert_eq!(
        PlayerTui::rows(),
        vec![Constraint::Percentage(50), Constraint::Percentage(50)]
    );
    assert_eq!(
        PlayerTui::columns(),
        vec![Constraint::Percentage(30), Constraint::Min(40), Constraint::Min(30)]
    );
    assert_eq!(
        ProgressTui::row(),
        vec![Constraint::Min(2), Constraint::Percentage(98), Constraint::Min(2)]
    );
    let mut root = RootTui::default();
    assert_eq!(
        root.layout(),
        vec![
            Constraint::Min(4),
            Constraint::Min(3),
            Constraint::Fill(20),
            Constraint::Max(1)
        ]
    );
    root.get_widget_mut::<ProgressTui>().unwrap().toggle_border();
    assert_eq!(root.layout()[3], Constraint::Max(3));
    root.get_widgets_mut().pop();
    assert_eq!(root.layout()[3], Constraint::Max(1));
}

#[test]
fn rows_are_as_wide_and_columns_as_high_as_the_region() {
    let wanted = vec![
        Constraint::Min(4),
        Constraint::Percentage(30),
        Constraint::Fill(1),
        Constraint::Max(2),
        Constraint::Length(300),
    ];
    for area in [
        Rect::new(3, 5, 40, 20),
        Rect::new(0, 0, 0, 0),
        Rect::new(7, 9, 1, 1),
        Rect::new(65535, 65535, 65535, 65535),
        Rect::new(65000, 100, 2000, 3),
    ] {
        for row in vertical(&wanted, area) {
            assert_eq!((row.x, row.width), (area.x, area.width));
        }
        for column in horizontal(&wanted, area) {
            assert_eq!((column.y, column.height), (area.y, area.height));
        }
    }
}

#[test]
fn rows_and_columns_lie_inside_the_region() {
    let wanted = vec![
        Constraint::Min(4),
        Constraint::Percentage(30),
        Constraint::Fill(1),
        Constraint::Max(2),
        Constraint::Length(300),
        Constraint::Ratio(5, 0),
    ];
    for area in [
        Rect::new(3, 5, 40, 20),
        Rect::new(0, 0, 0, 0),
        Rect::new(7, 9, 1, 1),
        Rect::new(65535, 65535, 65535, 65535),
        Rect::new(65000, 100, 2000, 3),
        Rect::new(100, 65000, 3, 2000),
    ] {
        let bottom = area.y.saturating_add(area.height);
        let right = area.x.saturating_add(area.width);
        for row in vertical(&wanted, area) {
            assert!(area.y <= row.y);
            assert!(u32::from(row.y) + u32::from(row.height) <= u32::from(bottom));
        }
        for column in horizontal(&wanted, area) {
            assert!(area.x <= column.x);
            assert!(u32::from(column.x) + u32::from(column.width) <= u32::from(right));
        }
    }
}

#[test]
fn children_are_drawn_inside_the_interior() {
    let mut root = RootTui::default();
    root.toggle_all_border();
    let area = Rect::new(2, 3, 120, 40);
    let mut frame = Frame::new(area);
    root.render(&mut frame, area);
    let draws = frame.draws();
    let inner = root.get_inner(area);
    assert_eq!(inner, Rect::new(3, 4, 118, 38));
    // The player, the navigation bar and the progress bar: rows of the
    // interior of the root.
    for at in [1, 8, 10] {
        assert_eq!((draws[at].area.x, draws[at].area.width), (inner.x, inner.width));
    }
    // The children of the player: three columns in each of two rows of its
    // interior.
    let player = root.get_widget::<PlayerTui>().unwrap();
    let inside = player.get_inner(draws[1].area);
    for at in 2..5 {
        assert_eq!(draws[at].area.y, draws[2].area.y);
        assert_eq!(draws[at].area.height, draws[2].area.height);
        assert!(draws[at].area.x >= inside.x);
    }
    for at in 5..8 {
        assert_eq!(draws[at].area.y, draws[5].area.y);
        assert_eq!(draws[at].area.height, draws[5].area.height);
    }
    assert!(draws[2].area.y >= inside.y);
    // The parts of the progress bar: columns of its interior.
    let bar = root.get_widget::<ProgressTui>().unwrap();
    let inside = bar.get_inner(draws[10].area);
    for at in 11..14 {
        assert_eq!((draws[at].area.y, draws[at].area.height), (inside.y, inside.height));
    }
}

fn toggle_twice<T: HasBorderStyleSetter>(widget: &mut T) -> (Borders, Borders) {
    widget.toggle_border();
    let once = widget.borders();
    widget.toggle_border();
    (once, widget.borders())
}

#[test]
fn setters_are_read_back_through_the_facet() {
    let mut navbar = NavbarTui::default();
    assert_eq!(toggle_twice(&mut navbar), (Borders::all(), Borders::none()));
    let mut progress = ProgressTui::default();
    progress.set_border(Borders::from_bits(Borders::LEFT));
    assert_eq!(toggle_twice(&mut progress), (Borders::none(), Borders::all()));
    let mut player = PlayerTui::default();
    player.set_title_fg(Color::Cyan);
    player.set_border_bg(Color::Black);
    assert_eq!(player.title_style().fg, Some(Color::Cyan));
    assert_eq!(player.border_style().bg, Some(Color::Black));
    assert_eq!(player.get_widgets().len(), 6);
}

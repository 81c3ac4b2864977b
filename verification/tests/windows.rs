use druid::app::{
    AppLauncher, ExtEventHost, LabelText, MenuDesc, PendingWindow, WindowBuilder, WindowConfig,
    WindowDesc, WindowHandle, WindowLevel, WindowState,
};
use druid::context::{Env, PRIMARY_LIGHT, THEME_PRIMARY_LIGHT};
use druid::event::{IdSource, WidgetId, WindowId};
use druid::geometry::{Point, Rect, Size};
use druid::label::Label;
use druid::screen::{get_display_size, get_monitors, monitor_from_info, Monitor, MONITOR_PRIMARY};
use druid::sub_window::SubWindowRequirement;

fn root() -> Label {
    Label::new("root".to_string())
}

fn no_setup(env: Env, _data: &u64) -> Env {
    env
}

fn red_setup(env: Env, data: &u64) -> Env {
    Env::new().adding(PRIMARY_LIGHT, *data as i64).adding(99, env.colour(PRIMARY_LIGHT))
}

#[test]
fn a_config_starts_with_nothing_chosen() {
    let config = WindowConfig::default();
    assert_eq!(config.size, None);
    assert_eq!(config.min_size, None);
    assert_eq!(config.position, None);
    assert_eq!(config.resizable, None);
    assert_eq!(config.show_titlebar, None);
    assert_eq!(config.maximized, None);
    assert_eq!(config.minimized, None);
    assert_eq!(config.level, None);
    assert_eq!(config.state, None);
    let mut builder = WindowBuilder::new();
    config.apply_to_builder(&mut builder);
    assert_eq!(builder, WindowBuilder::new());
}

#[test]
fn choices_are_written_over_a_builder() {
    let config = WindowConfig::default()
        .window_size(Size::new(700, 400))
        .with_min_size(Size::new(100, 50))
        .resizable(false)
        .show_titlebar(false)
        .set_position(Point::new(3, 4))
        .set_level(WindowLevel::Tooltip)
        .maximized();
    let mut builder = WindowBuilder::new();
    config.apply_to_builder(&mut builder);
    assert_eq!(
        builder,
        WindowBuilder {
            resizable: false,
            show_titlebar: false,
            size: Size::new(700, 400),
            min_size: Some(Size::new(100, 50)),
            position: Some(Point::new(3, 4)),
            state: WindowState::Maximized,
            level: WindowLevel::Tooltip,
        }
    );
    let mut put_away = WindowBuilder::new();
    config.minimized().apply_to_builder(&mut put_away);
    assert_eq!(put_away.state, WindowState::Minimized);
    let mut restored = WindowBuilder::new();
    restored.state = WindowState::Maximized;
    WindowConfig::default().set_window_state(WindowState::Restored).apply_to_builder(&mut restored);
    assert_eq!(restored.state, WindowState::Restored);
}

#[test]
fn choices_are_written_over_a_window_that_exists() {
    let mut handle = WindowHandle {
        resizable: true,
        show_titlebar: true,
        size: Size::new(10, 10),
        position: Point::new(0, 0),
        state: WindowState::Restored,
        level: WindowLevel::AppWindow,
    };
    let before = handle;
    WindowConfig::default().with_min_size(Size::new(500, 500)).apply_to_handle(&mut handle);
    assert_eq!(handle, before);
    WindowConfig::default()
        .window_size(Size::new(20, 30))
        .set_position(Point::new(5, 6))
        .resizable(false)
        .show_titlebar(false)
        .set_level(WindowLevel::Modal)
        .minimized()
        .apply_to_handle(&mut handle);
    assert_eq!(
        handle,
        WindowHandle {
            resizable: false,
            show_titlebar: false,
            size: Size::new(20, 30),
            position: Point::new(5, 6),
            state: WindowState::Minimized,
            level: WindowLevel::Modal,
        }
    );
}

#[test]
fn a_pending_window_has_the_default_title_and_menu() {
    let window = PendingWindow::new(root);
    assert!(matches!(&window.title, LabelText::Localized(key) if key == "app-name"));
    assert_eq!(window.menu, MenuDesc::platform_default());
    let window = window.title(LabelText::Specific("Tabs".to_string())).menu(MenuDesc { id: 4 });
    assert!(matches!(&window.title, LabelText::Specific(t) if t == "Tabs"));
    assert_eq!(window.menu, Some(MenuDesc { id: 4 }));
    assert_eq!(window.root.text, "root");
    let boxed = PendingWindow::new_from_boxed(Box::new(root()));
    assert!(matches!(&boxed.title, LabelText::Localized(key) if key == "app-name"));
}

#[test]
fn a_description_becomes_a_window_ready_to_be_made() {
    let mut ids = IdSource::starting_at(7);
    let desc = WindowDesc::new(&mut ids, root)
        .title(LabelText::Specific("Demo".to_string()))
        .menu(MenuDesc { id: 2 })
        .window_size(Size::new(400, 600))
        .with_min_size(Size::new(40, 60))
        .resizable(false)
        .show_titlebar(true)
        .set_position(Point::new(1, 2))
        .set_window_state(WindowState::Maximized);
    assert_eq!(desc.id, WindowId(7));
    assert_eq!(ids.next, 8);
    let native = desc.build_native();
    assert_eq!(native.id, WindowId(7));
    assert_eq!(native.builder.size, Size::new(400, 600));
    assert_eq!(native.builder.min_size, Some(Size::new(40, 60)));
    assert!(!native.builder.resizable);
    assert!(native.builder.show_titlebar);
    assert_eq!(native.builder.position, Some(Point::new(1, 2)));
    assert_eq!(native.builder.state, WindowState::Maximized);
    assert_eq!(native.builder.level, WindowLevel::AppWindow);
    assert_eq!(native.pending.menu, Some(MenuDesc { id: 2 }));
}

#[test]
fn a_launcher_plans_the_run() {
    let mut ids = IdSource::new();
    let desc = WindowDesc::new(&mut ids, root).window_size(Size::new(250, 500));
    let launcher: AppLauncher<u64, Label, fn(Env, &u64) -> Env, u8> =
        AppLauncher::with_window(desc);
    assert_eq!(launcher.get_external_handle().host, 0);
    let plan = launcher.debug_paint_layout().delegate(3).launch(11);
    assert_eq!(plan.data, 11);
    assert_eq!(plan.delegate, Some(3));
    assert_eq!(plan.windows.len(), 1);
    assert_eq!(plan.windows[0].id, WindowId(0));
    assert_eq!(plan.windows[0].builder.size, Size::new(250, 500));
    assert_eq!(plan.env.colour(PRIMARY_LIGHT), THEME_PRIMARY_LIGHT);
    assert_eq!(plan.ext_event_host, ExtEventHost::new(0));
    assert_eq!(ExtEventHost::new(4).make_sink().host, 4);
}

#[test]
fn the_environment_is_set_up_from_the_theme_and_the_data() {
    let mut ids = IdSource::new();
    let launcher: AppLauncher<u64, Label, fn(Env, &u64) -> Env, u8> =
        AppLauncher::with_window(WindowDesc::new(&mut ids, root));
    let plan = launcher.configure_env(red_setup as fn(Env, &u64) -> Env).launch(255);
    assert_eq!(plan.env.colour(PRIMARY_LIGHT), 255);
    assert_eq!(plan.env.colour(99), THEME_PRIMARY_LIGHT);
    let mut ids = IdSource::new();
    let launcher: AppLauncher<u64, Label, fn(Env, &u64) -> Env, u8> =
        AppLauncher::with_window(WindowDesc::new(&mut ids, root));
    let plan = launcher.configure_env(no_setup as fn(Env, &u64) -> Env).launch(1);
    assert_eq!(plan.env.colour(PRIMARY_LIGHT), THEME_PRIMARY_LIGHT);
}

#[test]
fn a_sub_window_requirement_becomes_a_description() {
    let config = WindowConfig::default().window_size(Size::new(100, 100));
    let requirement = SubWindowRequirement::new(Some(WidgetId(3)), root(), config, WindowId(9));
    assert_eq!(requirement.host_id, Some(WidgetId(3)));
    let desc = requirement.make_sub_window();
    assert_eq!(desc.id, WindowId(9));
    assert_eq!(desc.config, config);
    assert_eq!(desc.pending.root.text, "root");
}

#[test]
fn monitors_make_up_the_display() {
    let frames = vec![
        (Rect::new(0, 0, 1920, 1080), Rect::new(0, 25, 1920, 1080)),
        (Rect::new(1920, -200, 3200, 824), Rect::new(1920, -200, 3200, 800)),
    ];
    let monitors = get_monitors(&frames);
    assert_eq!(monitors.len(), 2);
    assert!(monitors[0].is_primary());
    assert!(!monitors[1].is_primary());
    assert_eq!(monitors[1].virtual_rect(), Rect::new(1920, -200, 3200, 824));
    assert_eq!(monitors[0].virtual_work_rect(), Rect::new(0, 25, 1920, 1080));
    assert_eq!(get_display_size(&monitors), Size::new(3200, 1280));
    assert_eq!(get_display_size(&Vec::new()), Size::new(0, 0));
    let m = monitor_from_info(MONITOR_PRIMARY, (0, 0, 800, 600), (0, 0, 800, 560));
    assert_eq!(m, Monitor::new(true, Rect::new(0, 0, 800, 600), Rect::new(0, 0, 800, 560)));
    assert!(!monitor_from_info(3, (0, 0, 1, 1), (0, 0, 1, 1)).primary);
}

//! Describing windows and getting an application ready to run.
//!
//! Nothing here touches the platform. A window description is turned into
//! the settings of a window builder, and a launcher into a plan that says
//! which windows to open over which data and environment; the host opens
//! them.

use vstd::prelude::*;
use crate::context::Env;
use crate::event::{IdSource, WindowId};
use crate::geometry::{Point, Size};

verus! {

/// How a window stands among the other windows.
#[derive(Clone, Copy, Debug, PartialEq, Eq, Structural)]
pub enum WindowLevel {
    AppWindow,
    Tooltip,
    DropDown,
    Modal,
}

/// Whether a window is shown as it is, as large as the screen, or put away.
#[derive(Clone, Copy, Debug, PartialEq, Eq, Structural)]
pub enum WindowState {
    Maximized,
    Minimized,
    Restored,
}

/// The text of a title: given as it is, or a key into the translations.
#[derive(Debug)]
pub enum LabelText {
    Specific(String),
    Localized(String),
}

/// The key of the title that a window has where none is given.
pub open spec fn spec_default_title_key() -> Seq<char> {
    "app-name"@
}

/// A menu, named by the number under which the host knows it.
#[derive(Clone, Copy, Debug, PartialEq, Eq, Structural)]
pub struct MenuDesc {
    pub id: u64,
}

impl MenuDesc {
    /// The menu that the platform gives a window by default.
    pub fn platform_default() -> (r: Option<MenuDesc>)
        ensures
            r == Some(MenuDesc { id: 0 }),
    {
        Some(MenuDesc { id: 0 })
    }
}

/// The settings of a window that were chosen; what was not chosen is left
/// to the platform.
#[derive(Clone, Copy, Debug, PartialEq, Eq, Structural)]
pub struct WindowConfig {
    pub size: Option<Size>,
    pub min_size: Option<Size>,
    pub position: Option<Point>,
    pub resizable: Option<bool>,
    pub show_titlebar: Option<bool>,
    pub maximized: Option<bool>,
    pub minimized: Option<bool>,
    pub level: Option<WindowLevel>,
    pub state: Option<WindowState>,
}

/// The settings of a window that is about to be made.
#[derive(Clone, Copy, Debug, PartialEq, Eq, Structural)]
pub struct WindowBuilder {
    pub resizable: bool,
    pub show_titlebar: bool,
    pub size: Size,
    pub min_size: Option<Size>,
    pub position: Option<Point>,
    pub state: WindowState,
    pub level: WindowLevel,
}

/// The settings of a window that exists.
#[derive(Clone, Copy, Debug, PartialEq, Eq, Structural)]
pub struct WindowHandle {
    pub resizable: bool,
    pub show_titlebar: bool,
    pub size: Size,
    pub position: Point,
    pub state: WindowState,
    pub level: WindowLevel,
}

impl WindowBuilder {
    pub open spec fn spec_new() -> WindowBuilder {
        WindowBuilder {
            resizable: true,
            show_titlebar: true,
            size: Size { width: 500, height: 400 },
            min_size: None,
            position: None,
            state: WindowState::Restored,
            level: WindowLevel::AppWindow,
        }
    }

    /// The settings of a window of which nothing was chosen.
    pub fn new() -> (r: WindowBuilder)
        ensures
            r == Self::spec_new(),
    {
        WindowBuilder {
            resizable: true,
            show_titlebar: true,
            size: Size { width: 500, height: 400 },
            min_size: None,
            position: None,
            state: WindowState::Restored,
            level: WindowLevel::AppWindow,
        }
    }
}

impl Default for WindowConfig {
    fn default() -> (r: Self)
        ensures
            r == WindowConfig::spec_default(),
    {
        WindowConfig {
            size: None,
            min_size: None,
            position: None,
            resizable: None,
            show_titlebar: None,
            maximized: None,
            minimized: None,
            level: None,
            state: None,
        }
    }
}

impl WindowConfig {
    /// The configuration in which nothing is chosen.
    pub open spec fn spec_default() -> WindowConfig {
        WindowConfig {
            size: None,
            min_size: None,
            position: None,
            resizable: None,
            show_titlebar: None,
            maximized: None,
            minimized: None,
            level: None,
            state: None,
        }
    }

    /// Chooses the size of the drawing area.
    pub fn window_size(self, size: Size) -> (r: Self)
        ensures
            r == (WindowConfig { size: Some(size), ..self }),
    {
        WindowConfig { size: Some(size), ..self }
    }

    /// Chooses the least size of the drawing area.
    pub fn with_min_size(self, size: Size) -> (r: Self)
        ensures
            r == (WindowConfig { min_size: Some(size), ..self }),
    {
        WindowConfig { min_size: Some(size), ..self }
    }

    /// Chooses whether the window can be resized.
    pub fn resizable(self, resizable: bool) -> (r: Self)
        ensures
            r == (WindowConfig { resizable: Some(resizable), ..self }),
    {
        WindowConfig { resizable: Some(resizable), ..self }
    }

    /// Chooses whether the window has a title bar.
    pub fn show_titlebar(self, show_titlebar: bool) -> (r: Self)
        ensures
            r == (WindowConfig { show_titlebar: Some(show_titlebar), ..self }),
    {
        WindowConfig { show_titlebar: Some(show_titlebar), ..self }
    }

    /// Chooses where the window is first placed on the screen.
    pub fn set_position(self, position: Point) -> (r: Self)
        ensures
            r == (WindowConfig { position: Some(position), ..self }),
    {
        WindowConfig { position: Some(position), ..self }
    }

    pub fn set_level(self, level: WindowLevel) -> (r: Self)
        ensures
            r == (WindowConfig { level: Some(level), ..self }),
    {
        WindowConfig { level: Some(level), ..self }
    }

    /// Chooses the state in which the window is first shown.
    pub fn set_window_state(self, state: WindowState) -> (r: Self)
        ensures
            r == (WindowConfig { state: Some(state), ..self }),
    {
        WindowConfig { state: Some(state), ..self }
    }

    /// Has the window made as large as the screen.
    pub fn maximized(self) -> (r: Self)
        ensures
            r == (WindowConfig { maximized: Some(true), ..self }),
    {
        WindowConfig { maximized: Some(true), ..self }
    }

    /// Has the window made put away.
    pub fn minimized(self) -> (r: Self)
        ensures
            r == (WindowConfig { minimized: Some(true), ..self }),
    {
        WindowConfig { minimized: Some(true), ..self }
    }

    /// The state that this configuration asks for over the state `before`:
    /// the chosen state, over which a wish to show the window as large as
    /// the screen goes, and over that a wish to put it away.
    pub open spec fn spec_state_over(self, before: WindowState) -> WindowState {
        if self.minimized == Some(true) {
            WindowState::Minimized
        } else if self.maximized == Some(true) {
            WindowState::Maximized
        } else {
            match self.state {
                Some(state) => state,
                None => before,
            }
        }
    }

    fn state_over(&self, before: WindowState) -> (r: WindowState)
        ensures
            r == self.spec_state_over(before),
    {
        let mut state = match self.state {
            Some(state) => state,
            None => before,
        };
        match self.maximized {
            Some(true) => {
                state = WindowState::Maximized;
            },
            _ => {},
        }
        match self.minimized {
            Some(true) => {
                state = WindowState::Minimized;
            },
            _ => {},
        }
        state
    }

    /// The settings once every choice of this configuration is written over
    /// them.
    pub open spec fn spec_applied_to_builder(self, builder: WindowBuilder) -> WindowBuilder {
        WindowBuilder {
            resizable: match self.resizable {
                Some(v) => v,
                None => builder.resizable,
            },
            show_titlebar: match self.show_titlebar {
                Some(v) => v,
                None => builder.show_titlebar,
            },
            size: match self.size {
                Some(v) => v,
                None => builder.size,
            },
            min_size: match self.min_size {
                Some(v) => Some(v),
                None => builder.min_size,
            },
            position: match self.position {
                Some(v) => Some(v),
                None => builder.position,
            },
            state: self.spec_state_over(builder.state),
            level: match self.level {
                Some(v) => v,
                None => builder.level,
            },
        }
    }

    /// Writes every choice over the settings of a window that is about to
    /// be made. What was not chosen stays as the builder has it.
    pub fn apply_to_builder(&self, builder: &mut WindowBuilder)
        ensures
            *final(builder) == self.spec_applied_to_builder(*old(builder)),
    {
        match self.resizable {
            Some(resizable) => {
                builder.resizable = resizable;
            },
            None => {},
        }
        match self.show_titlebar {
            Some(show_titlebar) => {
                builder.show_titlebar = show_titlebar;
            },
            None => {},
        }
        match self.size {
            Some(size) => {
                builder.size = size;
            },
            None => {},
        }
        match self.min_size {
            Some(min_size) => {
                builder.min_size = Some(min_size);
            },
            None => {},
        }
        match self.position {
            Some(position) => {
                builder.position = Some(position);
            },
            None => {},
        }
        builder.state = self.state_over(builder.state);
        match self.level {
            Some(level) => {
                builder.level = level;
            },
            None => {},
        }
    }

    /// The settings of a window that exists once every choice of this
    /// configuration is written over them. A least size is not among what
    /// can be set on a window that exists.
    pub open spec fn spec_applied_to_handle(self, handle: WindowHandle) -> WindowHandle {
        WindowHandle {
            resizable: match self.resizable {
                Some(v) => v,
                None => handle.resizable,
            },
            show_titlebar: match self.show_titlebar {
                Some(v) => v,
                None => handle.show_titlebar,
            },
            size: match self.size {
                Some(v) => v,
                None => handle.size,
            },
            position: match self.position {
                Some(v) => v,
                None => handle.position,
            },
            state: self.spec_state_over(handle.state),
            level: match self.level {
                Some(v) => v,
                None => handle.level,
            },
        }
    }

    /// Writes every choice over the settings of a window that exists.
    pub fn apply_to_handle(&self, win_handle: &mut WindowHandle)
        ensures
            *final(win_handle) == self.spec_applied_to_handle(*old(win_handle)),
    {
        match self.resizable {
            Some(resizable) => {
                win_handle.resizable = resizable;
            },
            None => {},
        }
        match self.show_titlebar {
            Some(show_titlebar) => {
                win_handle.show_titlebar = show_titlebar;
            },
            None => {},
        }
        match self.size {
            Some(size) => {
                win_handle.size = size;
            },
            None => {},
        }
        match self.position {
            Some(position) => {
                win_handle.position = position;
            },
            None => {},
        }
        win_handle.state = self.state_over(win_handle.state);
        match self.level {
            Some(level) => {
                win_handle.level = level;
            },
            None => {},
        }
    }
}

/// What a window is made of before it exists: the root of its tree, its
/// title and its menu.
pub struct PendingWindow<W> {
    pub root: W,
    pub title: LabelText,
    pub menu: Option<MenuDesc>,
}

impl<W> PendingWindow<W> {
    /// A window around a root that is already boxed, with the title and the
    /// menu that a window has by default.
    pub fn new_from_boxed(root: Box<W>) -> (r: PendingWindow<W>)
        ensures
            r.root == *root,
            r.title matches LabelText::Localized(key) && key@ == spec_default_title_key(),
            r.menu == Some(MenuDesc { id: 0 }),
    {
        PendingWindow {
            root: *root,
            title: LabelText::Localized("app-name".to_string()),
            menu: MenuDesc::platform_default(),
        }
    }

    /// A window around the root that `root` makes, with the title and the
    /// menu that a window has by default.
    pub fn new<F: FnOnce() -> W>(root: F) -> (r: PendingWindow<W>)
        requires
            call_requires(root, ()),
        ensures
            call_ensures(root, (), r.root),
            r.title matches LabelText::Localized(key) && key@ == spec_default_title_key(),
            r.menu == Some(MenuDesc { id: 0 }),
    {
        PendingWindow {
            root: root(),
            title: LabelText::Localized("app-name".to_string()),
            menu: MenuDesc::platform_default(),
        }
    }

    /// This window with another title.
    pub fn title(self, title: LabelText) -> (r: Self)
        ensures
            r.root == self.root,
            r.title == title,
            r.menu == self.menu,
    {
        PendingWindow { root: self.root, title, menu: self.menu }
    }

    /// This window with another menu.
    pub fn menu(self, menu: MenuDesc) -> (r: Self)
        ensures
            r.root == self.root,
            r.title == self.title,
            r.menu == Some(menu),
    {
        PendingWindow { root: self.root, title: self.title, menu: Some(menu) }
    }
}

/// The description of a window to be opened.
pub struct WindowDesc<W> {
    pub pending: PendingWindow<W>,
    pub config: WindowConfig,
    /// The identity that the window will have. It is known from the start,
    /// so that a window can be followed from its description to its opening.
    pub id: WindowId,
}

/// A window that is ready to be made: its identity, the settings of its
/// builder, and what it is made of.
pub struct NativeWindow<W> {
    pub id: WindowId,
    pub builder: WindowBuilder,
    pub pending: PendingWindow<W>,
}

impl<W> WindowDesc<W> {
    /// The description of a window around the root that `root` makes, with
    /// the next identity of `ids`.
    pub fn new<F: FnOnce() -> W>(ids: &mut IdSource, root: F) -> (r: WindowDesc<W>)
        requires
            call_requires(root, ()),
        ensures
            call_ensures(root, (), r.pending.root),
            r.pending.title matches LabelText::Localized(key) && key@ == spec_default_title_key(),
            r.pending.menu == Some(MenuDesc { id: 0 }),
            r.config == WindowConfig::spec_default(),
            r.id == WindowId(old(ids).next),
            final(ids).next == IdSource::after_draw(old(ids).next),
    {
        WindowDesc {
            pending: PendingWindow::new(root),
            config: WindowConfig::default(),
            id: ids.next_window_id(),
        }
    }

    /// This description with another title.
    pub fn title(self, title: LabelText) -> (r: Self)
        ensures
            r.pending.root == self.pending.root,
            r.pending.title == title,
            r.pending.menu == self.pending.menu,
            r.config == self.config,
            r.id == self.id,
    {
        WindowDesc { pending: self.pending.title(title), config: self.config, id: self.id }
    }

    /// This description with another menu.
    pub fn menu(self, menu: MenuDesc) -> (r: Self)
        ensures
            r.pending.root == self.pending.root,
            r.pending.title == self.pending.title,
            r.pending.menu == Some(menu),
            r.config == self.config,
            r.id == self.id,
    {
        WindowDesc { pending: self.pending.menu(menu), config: self.config, id: self.id }
    }

    /// Chooses the size of the drawing area.
    pub fn window_size(self, size: Size) -> (r: Self)
        ensures
            r.pending == self.pending,
            r.config == (WindowConfig { size: Some(size), ..self.config }),
            r.id == self.id,
    {
        WindowDesc { pending: self.pending, config: self.config.window_size(size), id: self.id }
    }

    /// Chooses the least size of the drawing area.
    pub fn with_min_size(self, size: Size) -> (r: Self)
        ensures
            r.pending == self.pending,
            r.config == (WindowConfig { min_size: Some(size), ..self.config }),
            r.id == self.id,
    {
        WindowDesc { pending: self.pending, config: self.config.with_min_size(size), id: self.id }
    }

    /// Chooses whether the window can be resized.
    pub fn resizable(self, resizable: bool) -> (r: Self)
        ensures
            r.pending == self.pending,
            r.config == (WindowConfig { resizable: Some(resizable), ..self.config }),
            r.id == self.id,
    {
        WindowDesc { pending: self.pending, config: self.config.resizable(resizable), id: self.id }
    }

    /// Chooses whether the window has a title bar.
    pub fn show_titlebar(self, show_titlebar: bool) -> (r: Self)
        ensures
            r.pending == self.pending,
            r.config == (WindowConfig { show_titlebar: Some(show_titlebar), ..self.config }),
            r.id == self.id,
    {
        WindowDesc {
            pending: self.pending,
            config: self.config.show_titlebar(show_titlebar),
            id: self.id,
        }
    }

    /// Chooses where the window is first placed on the screen.
    pub fn set_position(self, position: Point) -> (r: Self)
        ensures
            r.pending == self.pending,
            r.config == (WindowConfig { position: Some(position), ..self.config }),
            r.id == self.id,
    {
        WindowDesc { pending: self.pending, config: self.config.set_position(position), id: self.id }
    }

    /// Chooses the state in which the window is first shown.
    pub fn set_window_state(self, state: WindowState) -> (r: Self)
        ensures
            r.pending == self.pending,
            r.config == (WindowConfig { state: Some(state), ..self.config }),
            r.id == self.id,
    {
        WindowDesc { pending: self.pending, config: self.config.set_window_state(state), id: self.id }
    }

    /// The window that the host is to make from this description: the
    /// choices of the description written over the settings of a new
    /// builder.
    pub fn build_native(self) -> (r: NativeWindow<W>)
        ensures
            r.id == self.id,
            r.pending == self.pending,
            r.builder == self.config.spec_applied_to_builder(WindowBuilder::spec_new()),
    {
        let mut builder = WindowBuilder::new();
        self.config.apply_to_builder(&mut builder);
        NativeWindow { id: self.id, builder, pending: self.pending }
    }
}

/// Where events from outside the tree come in.
#[derive(Clone, Copy, Debug, PartialEq, Eq, Structural)]
pub struct ExtEventHost {
    pub id: u64,
}

/// A handle by which events are sent to the host it names.
#[derive(Clone, Copy, Debug, PartialEq, Eq, Structural)]
pub struct ExtEventSink {
    pub host: u64,
}

impl ExtEventHost {
    pub fn new(id: u64) -> (r: ExtEventHost)
        ensures
            r.id == id,
    {
        ExtEventHost { id }
    }

    /// A handle to this host.
    pub fn make_sink(&self) -> (r: ExtEventSink)
        ensures
            r.host == self.id,
    {
        ExtEventSink { host: self.id }
    }
}

/// What it takes to run an application: the windows to open, in order, the
/// environment and the data they start with, and the delegate.
pub struct LaunchPlan<T, W, D> {
    pub windows: Vec<NativeWindow<W>>,
    pub env: Env,
    pub data: T,
    pub delegate: Option<D>,
    pub ext_event_host: ExtEventHost,
}

/// Gets an application ready to run.
///
/// `F` sets the environment up before the first window opens, and `D` is
/// the delegate that the host consults while the application runs.
pub struct AppLauncher<T, W, F, D> {
    pub windows: Vec<WindowDesc<W>>,
    pub env_setup: Option<F>,
    pub delegate: Option<D>,
    pub ext_event_host: ExtEventHost,
    pub phantom: std::marker::PhantomData<T>,
}

/// `env` is what the set-up function makes of the built-in theme `theme`.
pub open spec fn spec_set_up<T, F: FnOnce(Env, &T) -> Env>(
    f: F,
    theme: Env,
    data: &T,
    env: Env,
) -> bool {
    theme.entries@ == crate::context::spec_theme() && call_ensures(f, (theme, data), env)
}

/// `env` is the environment that an application starts with: the built-in
/// theme, as the set-up function leaves it where there is one.
pub open spec fn spec_env_launched<T, F: FnOnce(Env, &T) -> Env>(
    env_setup: Option<F>,
    data: &T,
    env: Env,
) -> bool {
    match env_setup {
        Some(f) => exists|theme: Env| #[trigger] spec_set_up(f, theme, data, env),
        None => env.entries@ == crate::context::spec_theme(),
    }
}

/// The windows of the descriptions, ready to be made.
pub open spec fn spec_natives<W>(windows: Seq<WindowDesc<W>>) -> Seq<NativeWindow<W>> {
    Seq::new(
        windows.len(),
        |i: int|
            NativeWindow {
                id: windows[i].id,
                builder: windows[i].config.spec_applied_to_builder(WindowBuilder::spec_new()),
                pending: windows[i].pending,
            },
    )
}

impl<T, W, F: FnOnce(Env, &T) -> Env, D> AppLauncher<T, W, F, D> {
    /// A launcher that opens the given window.
    pub fn with_window(window: WindowDesc<W>) -> (r: Self)
        ensures
            r.windows@ == seq![window],
            r.env_setup is None,
            r.delegate is None,
            r.ext_event_host == (ExtEventHost { id: 0 }),
    {
        let mut windows: Vec<WindowDesc<W>> = Vec::new();
        windows.push(window);
        AppLauncher {
            windows,
            env_setup: None,
            delegate: None,
            ext_event_host: ExtEventHost::new(0),
            phantom: std::marker::PhantomData,
        }
    }

    /// This launcher with a function that sets the environment up: it is
    /// given the built-in theme and the data, and what it returns is the
    /// environment that the application starts with.
    pub fn configure_env(self, f: F) -> (r: Self)
        ensures
            r.windows == self.windows,
            r.env_setup == Some(f),
            r.delegate == self.delegate,
            r.ext_event_host == self.ext_event_host,
    {
        AppLauncher {
            windows: self.windows,
            env_setup: Some(f),
            delegate: self.delegate,
            ext_event_host: self.ext_event_host,
            phantom: std::marker::PhantomData,
        }
    }

    /// This launcher with a delegate.
    pub fn delegate(self, delegate: D) -> (r: Self)
        ensures
            r.windows == self.windows,
            r.env_setup == self.env_setup,
            r.delegate == Some(delegate),
            r.ext_event_host == self.ext_event_host,
    {
        AppLauncher {
            windows: self.windows,
            env_setup: self.env_setup,
            delegate: Some(delegate),
            ext_event_host: self.ext_event_host,
            phantom: std::marker::PhantomData,
        }
    }

    /// A handle by which events can be sent to the application from outside.
    pub fn get_external_handle(&self) -> (r: ExtEventSink)
        ensures
            r.host == self.ext_event_host.id,
    {
        self.ext_event_host.make_sink()
    }

    /// This launcher, unchanged. Layout is made visible on the widgets
    /// themselves.
    pub fn debug_paint_layout(self) -> (r: Self)
        ensures
            r == self,
    {
        self
    }

    /// The plan by which the host runs the application: the environment is
    /// the built-in theme as the set-up function leaves it, and each
    /// description has become a window ready to be made, in the order in
    /// which the windows were given.
    pub fn launch(self, data: T) -> (r: LaunchPlan<T, W, D>)
        requires
            self.env_setup is Some ==> forall|env: Env| call_requires(self.env_setup->0, (env, &data)),
        ensures
            r.data == data,
            r.delegate == self.delegate,
            r.ext_event_host == self.ext_event_host,
            r.windows@ == spec_natives(self.windows@),
            spec_env_launched(self.env_setup, &data, r.env),
    {
        let AppLauncher { windows: descs, env_setup, delegate, ext_event_host, phantom: _ } = self;
        let ghost all = descs@;
        let mut rest = descs;
        let mut windows: Vec<NativeWindow<W>> = Vec::new();
        while rest.len() > 0
            invariant
                windows.len() + rest.len() == all.len(),
                rest@ == all.skip(windows.len() as int),
                windows@ == spec_natives(all.take(windows.len() as int)),
            decreases rest.len(),
        {
            let ghost done = windows.len() as int;
            let desc = rest.remove(0);
            assert(desc == all[done]);
            assert(rest@ =~= all.skip(done + 1));
            windows.push(desc.build_native());
            assert(windows@ =~= spec_natives(all.take(done + 1)));
        }
        assert(all.take(all.len() as int) =~= all);
        let theme = Env::theme();
        let ghost given = theme;
        let env = match env_setup {
            Some(f) => f(theme, &data),
            None => theme,
        };
        proof {
            if env_setup is Some {
                assert(spec_set_up(env_setup->0, given, &data, env));
            }
            assert(spec_env_launched(env_setup, &data, env));
        }
        LaunchPlan { windows, env, data, delegate, ext_event_host }
    }
}

} // verus!

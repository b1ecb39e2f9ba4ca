//! The controller behind a stand-in for the platform: shared state behind
//! locks, a tray icon that is built after the first menu, and a callback
//! that carries out what the dispatcher asks for.

use std::cell::RefCell;
use std::sync::{Arc, RwLock};

use recorder_tray::dispatcher::{Action, Dispatcher};
use recorder_tray::event::OutboundEvent;
use recorder_tray::menu::{ItemId, MenuDescription};
use recorder_tray::tray::TrayHandle;

/// What the stand-in platform has seen.
#[derive(Default)]
struct Platform {
    built: RefCell<Vec<Vec<(String, String, bool)>>>,
    published: RefCell<Vec<String>>,
    exit: RefCell<Option<i32>>,
    log: RefCell<Vec<String>>,
    failures: RefCell<Vec<String>>,
    refuse_menus: RefCell<bool>,
}

#[derive(Clone, Debug, PartialEq)]
struct PlatformMenu(Vec<(String, String, bool)>);

struct Icon {
    menu: RefCell<Option<PlatformMenu>>,
    refuse: RefCell<bool>,
}

impl Icon {
    fn set_menu(&self, menu: Option<PlatformMenu>) -> Result<(), String> {
        if *self.refuse.borrow() {
            return Err(String::from("icon refused the menu"));
        }
        *self.menu.borrow_mut() = menu;
        Ok(())
    }
}

type SharedTray = Arc<RwLock<TrayHandle<Icon>>>;

fn platform_menu(platform: &Platform, description: &MenuDescription) -> Result<PlatformMenu, String> {
    if *platform.refuse_menus.borrow() {
        return Err(String::from("no room for a menu"));
    }
    let [start, stop, history, quit] = description.items();
    let lines: Vec<(String, String, bool)> = [start, stop, history, quit]
        .into_iter()
        .map(|entry| (entry.id.as_str().to_string(), entry.label.to_string(), entry.enabled))
        .collect();
    platform.built.borrow_mut().push(lines.clone());
    Ok(PlatformMenu(lines))
}

fn update_menu(
    platform: &Platform,
    description: &MenuDescription,
    tray: &SharedTray,
) -> Result<PlatformMenu, String> {
    let menu = platform_menu(platform, description)?;
    let for_icon = menu.clone();
    tray.read()
        .unwrap()
        .install(move |icon: &Icon| icon.set_menu(Some(for_icon)))?;
    Ok(menu)
}

fn perform(platform: &Platform, action: Action, tray: &SharedTray) {
    match action {
        Action::Emit(event) => platform.published.borrow_mut().push(event.name().to_string()),
        Action::InstallMenu(description) => {
            if let Err(error) = update_menu(platform, &description, tray) {
                platform.failures.borrow_mut().push(error);
            }
        }
        Action::Exit(code) => *platform.exit.borrow_mut() = Some(code),
        Action::Diagnose(notice) => platform.log.borrow_mut().push(notice),
    }
}

struct Wired {
    platform: Platform,
    dispatcher: Arc<RwLock<Dispatcher>>,
    tray: SharedTray,
}

impl Wired {
    fn start_up() -> Result<Wired, String> {
        Wired::start_up_on(Platform::default())
    }

    fn start_up_on(platform: Platform) -> Result<Wired, String> {
        let dispatcher = Arc::new(RwLock::new(Dispatcher::new()));
        let tray: SharedTray = Arc::new(RwLock::new(TrayHandle::new()));

        let recording = dispatcher.read().unwrap().is_recording();
        let first = update_menu(&platform, &MenuDescription::build(recording), &tray)?;
        let icon = Icon { menu: RefCell::new(Some(first)), refuse: RefCell::new(false) };

        {
            let mut store = tray.write().unwrap();
            if store.is_set() {
                panic!("the tray icon was built twice");
            }
            store.set(icon);
        }
        Ok(Wired { platform, dispatcher, tray })
    }

    fn activate(&self, key: &str) {
        let actions = self.dispatcher.write().unwrap().dispatch(key);
        for action in actions {
            perform(&self.platform, action, &self.tray);
        }
    }

    fn recording(&self) -> bool {
        self.dispatcher.read().unwrap().flag().read()
    }

    fn shown(&self) -> Vec<(String, String, bool)> {
        self.tray
            .read()
            .unwrap()
            .with(|icon| icon.menu.borrow().clone())
            .flatten()
            .map(|menu| menu.0)
            .unwrap_or_default()
    }
}

fn lines(menu: &MenuDescription) -> Vec<(String, String, bool)> {
    menu.items()
        .iter()
        .map(|entry| (entry.id.as_str().to_string(), entry.label.to_string(), entry.enabled))
        .collect()
}

#[test]
fn startup_seeds_the_idle_menu() {
    let wired = Wired::start_up().unwrap();
    assert!(!wired.recording());
    assert!(wired.tray.read().unwrap().is_set());
    assert_eq!(wired.platform.built.borrow().len(), 1);
    assert_eq!(wired.shown(), lines(&MenuDescription::build(false)));
    assert!(wired.platform.published.borrow().is_empty());
}

#[test]
fn startup_fails_when_the_first_menu_cannot_be_built() {
    let platform = Platform::default();
    *platform.refuse_menus.borrow_mut() = true;
    let outcome = Wired::start_up_on(platform);
    assert_eq!(outcome.err(), Some(String::from("no room for a menu")));
}

#[test]
fn wired_start_and_stop() {
    let wired = Wired::start_up().unwrap();

    wired.activate("start");
    assert!(wired.recording());
    assert_eq!(*wired.platform.published.borrow(), vec!["start-recording"]);
    assert_eq!(
        wired.shown(),
        vec![
            (String::from("start"), String::from("🔴 Recording"), false),
            (String::from("stop"), String::from("Stop"), true),
            (String::from("history"), String::from("History"), true),
            (String::from("quit"), String::from("Quit"), true),
        ]
    );

    wired.activate("stop");
    assert!(!wired.recording());
    assert_eq!(
        *wired.platform.published.borrow(),
        vec!["start-recording", "stop-recording"]
    );
    assert_eq!(wired.shown(), lines(&MenuDescription::build(false)));
    assert_eq!(wired.platform.built.borrow().len(), 3);
}

#[test]
fn wired_stale_activation_changes_nothing() {
    let wired = Wired::start_up().unwrap();
    wired.activate("start");
    let built = wired.platform.built.borrow().len();
    wired.activate("start");
    assert!(wired.recording());
    assert_eq!(*wired.platform.published.borrow(), vec!["start-recording"]);
    assert_eq!(wired.platform.built.borrow().len(), built);
    assert!(wired.platform.log.borrow().is_empty());
}

#[test]
fn wired_history_publishes_and_leaves_the_menu() {
    let wired = Wired::start_up().unwrap();
    wired.activate("history");
    wired.activate("start");
    wired.activate("history");
    assert_eq!(
        *wired.platform.published.borrow(),
        vec!["show-history", "start-recording", "show-history"]
    );
    assert_eq!(wired.platform.built.borrow().len(), 2);
    assert!(wired.recording());
}

#[test]
fn wired_quit_exits_with_zero_and_ends_everything() {
    let wired = Wired::start_up().unwrap();
    wired.activate("start");
    wired.activate("quit");
    assert_eq!(*wired.platform.exit.borrow(), Some(0));
    let published = wired.platform.published.borrow().clone();
    let shown = wired.shown();
    for key in ["stop", "history", "start", "quit", "bogus"] {
        wired.activate(key);
    }
    assert_eq!(*wired.platform.published.borrow(), published);
    assert_eq!(wired.shown(), shown);
    assert!(wired.platform.log.borrow().is_empty());
    assert!(wired.recording());
}

#[test]
fn wired_unknown_key_goes_to_the_log() {
    let wired = Wired::start_up().unwrap();
    wired.activate("preferences");
    assert_eq!(*wired.platform.log.borrow(), vec!["menu item preferences not handled"]);
    assert!(!wired.recording());
    assert_eq!(wired.shown(), lines(&MenuDescription::build(false)));
}

#[test]
fn failed_install_is_surfaced_and_the_transition_stands() {
    let wired = Wired::start_up().unwrap();
    wired.tray.read().unwrap().with(|icon| *icon.refuse.borrow_mut() = true);
    wired.activate("start");
    assert!(wired.recording());
    assert_eq!(*wired.platform.published.borrow(), vec!["start-recording"]);
    assert_eq!(*wired.platform.failures.borrow(), vec!["icon refused the menu"]);
    // Nothing is retried.
    assert_eq!(wired.platform.built.borrow().len(), 2);
}

#[test]
fn wired_menu_matches_the_flag_after_every_activation() {
    let wired = Wired::start_up().unwrap();
    for key in ["start", "start", "history", "stop", "bogus", "stop", "start", "quit", "stop"] {
        wired.activate(key);
        let flag = wired.recording();
        let shown = wired.shown();
        assert_eq!(shown, lines(&MenuDescription::build(flag)));
        assert_eq!(shown[0].2, !flag);
        assert_eq!(shown[1].2, flag);
        assert_eq!(shown[0].0, ItemId::Start.as_str());
        assert_eq!(shown[1].0, ItemId::Stop.as_str());
    }
    assert_eq!(
        *wired.platform.published.borrow(),
        vec![
            OutboundEvent::StartRecording.name(),
            OutboundEvent::ShowHistory.name(),
            OutboundEvent::StopRecording.name(),
            OutboundEvent::StartRecording.name(),
        ]
    );
}

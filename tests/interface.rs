use rustacean_launcher::tabs::{App, ConfigKind, ConfigTab};
use rustacean_launcher::tasks::{ConcurrentTask, SequentialTask, TaskResult};
use rustacean_launcher::users::{OfflineUser, User, UserBuilder, UserType};

#[test]
fn app_tabs_wrap_around() {
    let mut app = App::new();
    assert_eq!(app.titles().len(), 3);
    assert_eq!(app.selected_tab(), 0);
    app.prev_tab();
    assert_eq!(app.selected_tab(), 2);
    app.next_tab();
    assert_eq!(app.selected_tab(), 0);
    app.next_tab();
    assert_eq!(app.selected_tab(), 1);
    assert!(app.is_running());
    app.stop();
    assert!(!app.is_running());
}

#[test]
fn config_tab_selection() {
    let mut tab = ConfigTab::new();
    assert_eq!(tab.selected_config(), 0);
    tab.previous_config_tab();
    assert_eq!(tab.selected_config(), 2);
    tab.next_config_tab();
    assert_eq!(tab.selected_config(), 3);
    tab.next_config_tab();
    assert_eq!(tab.selected_config(), 0);
    tab.handle_config_item(true, 5);
    assert_eq!(tab.selected_config(), 0);
    assert!(matches!(ConfigKind::default(), ConfigKind::List((0, ref v)) if v.is_empty()));
}

#[test]
fn user_builder_outcomes() {
    let u = UserBuilder::new().name("Steve".to_string()).build().unwrap();
    assert_eq!(u.username(), "Steve");
    assert_eq!(u.token(), "");
    assert_eq!(UserBuilder::new().build().unwrap_err(), "Name is required for offline user");
    let premium = UserBuilder::new()
        .user_type(UserType::PREMIUM { token: "t".to_string() })
        .name("Alex".to_string())
        .token("t".to_string())
        .build();
    assert_eq!(premium.unwrap_err(), "Premiun is not implemented yet");
    assert_eq!(UserBuilder::default().username(), "TheRustierOne");
    assert_eq!(UserBuilder::default_boxed().name, "TheRustierOne");
    let o = OfflineUser { name: "x".to_string() };
    assert_eq!(o.username(), "x");
    assert!(matches!(UserType::default(), UserType::OFFLINE));
}

#[test]
fn task_results_convert() {
    assert_eq!(TaskResult::SUCCESS(3).into_result(), Ok(3));
    assert_eq!(TaskResult::<u8>::FAILURE("bad".to_string()).into_result(), Err("bad".to_string()));
    assert_eq!(TaskResult::<u8>::ABORTED.into_result(), Err("Aborted".to_string()));
    assert!(matches!(TaskResult::from_result(Ok::<u8, String>(1)), TaskResult::SUCCESS(1)));
    assert!(matches!(TaskResult::<u8>::from_result(Err("e".to_string())), TaskResult::FAILURE(ref e) if e == "e"));
}

#[test]
fn task_lists() {
    let mut s: SequentialTask<u8> = SequentialTask::default();
    s.add_task(1);
    s.add_task(2);
    assert_eq!(s.take_tasks(), vec![1, 2]);
    assert!(s.take_tasks().is_empty());
    let mut c: ConcurrentTask<u8> = ConcurrentTask::default();
    c.add_task(7);
    let sched = c.scheduler().unwrap();
    assert_eq!(sched.limit(), 32);
    assert_eq!(sched.total(), 1);
    assert!(ConcurrentTask::new(vec![1u8], 0).scheduler().is_none());
    assert_eq!(c.take_tasks(), vec![7]);
    assert_eq!(SequentialTask::new(vec![3u8]).take_tasks(), vec![3]);
}

use pty_manager::error::PtyError;
use pty_manager::event::TerminalOutput;
use pty_manager::factory::TerminalSize;
use pty_manager::pump::PumpStep;
use pty_manager::table::IdTable;
use pty_manager::terminal::TerminalManager;

#[test]
fn terminals_are_recorded_under_the_given_id() {
    let mut manager: TerminalManager<Vec<u8>> = TerminalManager::new();
    assert_eq!(manager.len(), 0);
    assert_eq!(manager.create_terminal("main".to_string(), Vec::new()), Ok("main".to_string()));
    assert_eq!(manager.create_terminal("side".to_string(), Vec::new()), Ok("side".to_string()));
    assert!(manager.contains("main"));
    assert!(manager.contains("side"));
    assert!(!manager.contains("other"));
    assert_eq!(manager.len(), 2);
}

#[test]
fn a_live_id_is_not_given_twice() {
    let mut manager: TerminalManager<u8> = TerminalManager::new();
    manager.create_terminal("main".to_string(), 1).unwrap();
    assert_eq!(manager.create_terminal("main".to_string(), 2), Err(PtyError::IdCollision));
    assert_eq!(*manager.write_to_terminal("main").unwrap(), 1);
    assert_eq!(manager.len(), 1);
}

#[test]
fn writing_goes_to_the_named_terminal() {
    let mut manager: TerminalManager<Vec<u8>> = TerminalManager::new();
    manager.create_terminal("main".to_string(), Vec::new()).unwrap();
    manager.create_terminal("side".to_string(), Vec::new()).unwrap();
    manager.write_to_terminal("side").unwrap().extend_from_slice(b"pwd\n");
    assert_eq!(manager.write_to_terminal("side").unwrap().as_slice(), b"pwd\n");
    assert!(manager.write_to_terminal("main").unwrap().is_empty());
}

#[test]
fn resizing_hands_out_the_size() {
    let mut manager: TerminalManager<(u16, u16)> = TerminalManager::new();
    manager.create_terminal("main".to_string(), (24, 80)).unwrap();
    {
        let (handle, size) = manager.resize_terminal("main", 10, 20).unwrap();
        assert_eq!(size, TerminalSize { rows: 10, cols: 20, pixel_width: 0, pixel_height: 0 });
        *handle = (size.rows, size.cols);
    }
    assert_eq!(*manager.write_to_terminal("main").unwrap(), (10, 20));
}

#[test]
fn unknown_terminals_are_not_found() {
    let mut manager: TerminalManager<u8> = TerminalManager::new();
    manager.create_terminal("main".to_string(), 1).unwrap();
    assert_eq!(manager.write_to_terminal("gone").unwrap_err(), PtyError::SessionNotFound);
    assert_eq!(manager.resize_terminal("gone", 1, 1).unwrap_err(), PtyError::SessionNotFound);
    assert_eq!(manager.close_terminal("gone"), Err(PtyError::SessionNotFound));
    assert_eq!(manager.len(), 1);
}

#[test]
fn closing_removes_the_terminal() {
    let mut manager: TerminalManager<u8> = TerminalManager::new();
    manager.create_terminal("main".to_string(), 1).unwrap();
    manager.create_terminal("side".to_string(), 2).unwrap();
    assert_eq!(manager.close_terminal("main"), Ok(()));
    assert!(!manager.contains("main"));
    assert!(manager.contains("side"));
    assert_eq!(manager.close_terminal("main"), Err(PtyError::SessionNotFound));
    assert_eq!(manager.create_terminal("main".to_string(), 3), Ok("main".to_string()));
    assert_eq!(*manager.write_to_terminal("main").unwrap(), 3);
}

#[test]
fn table_binds_each_key_once() {
    let mut table: IdTable<u32> = IdTable::new();
    assert_eq!(table.len(), 0);
    assert_eq!(table.insert("a".to_string(), 1), None);
    assert_eq!(table.insert("b".to_string(), 2), None);
    assert_eq!(table.insert("a".to_string(), 3), Some(1));
    assert_eq!(table.len(), 2);
    assert_eq!(table.get("a"), Some(&3));
    assert_eq!(table.get("b"), Some(&2));
    assert_eq!(table.get("c"), None);
    assert_eq!(table.position("b"), Some(1));
    assert_eq!(table.key_at(0), "a");
    assert_eq!(*table.value_at(1), 2);
    *table.get_mut("b").unwrap() = 20;
    assert!(table.get_mut("c").is_none());
    assert_eq!(table.remove("a"), Some(3));
    assert_eq!(table.remove("a"), None);
    assert!(!table.contains_key("a"));
    assert!(table.contains_key("b"));
    assert_eq!(table.remove_at(0), ("b".to_string(), 20));
    assert_eq!(table.len(), 0);
}

#[test]
fn terminal_reader_reports_output_and_removes_closed_terminals() {
    let mut manager: TerminalManager<u8> = TerminalManager::new();
    manager.create_terminal("main".to_string(), 1).unwrap();
    assert_eq!(
        manager.pump_step("main", Some("$ ".as_bytes())),
        PumpStep::Emit(TerminalOutput { id: "main".to_string(), data: "$ ".to_string() })
    );
    assert!(manager.contains("main"));
    let nothing: [u8; 0] = [];
    assert_eq!(manager.pump_step("main", Some(&nothing)), PumpStep::Stop);
    assert!(!manager.contains("main"));
    manager.create_terminal("main".to_string(), 2).unwrap();
    assert_eq!(manager.pump_step("main", None), PumpStep::Stop);
    assert_eq!(manager.len(), 0);
}

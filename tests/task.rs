use std::sync::Arc;
use std::time::Duration;

use task::{build_safe_sync_ptr, Printer, Task, TaskDefinition};

#[test]
fn builder() {
    // test that the builder works
    let built = build_safe_sync_ptr(0);
    if let Err(error) = built.lock() {
        let data_error = error.get_ref();
        println!("error: {data_error}");
    }
    drop(built); // explicit drop
}

#[test]
fn builder_holds_item() {
    let built = build_safe_sync_ptr(41);
    {
        let mut guard = built.lock().unwrap();
        *guard += 1;
    }
    assert_eq!(*built.lock().unwrap(), 42);
}

#[test]
fn new_task_keeps_its_parts() {
    let def = build_safe_sync_ptr(Printer::new());
    let task = Task::new(Duration::from_millis(250), String::from("printer"), Arc::clone(&def));
    assert_eq!(task.period(), Duration::from_millis(250));
    assert_eq!(task.name(), "printer");
    assert!(Arc::ptr_eq(task.definition(), &def));
    assert_eq!(*task.stop_flag().lock().unwrap(), false);
}

#[test]
fn printer_counts_runs() {
    let mut printer = Printer::new();
    assert_eq!(printer.counter(), 0);
    assert_eq!(printer.init(), Ok(()));
    assert_eq!(printer.counter(), 0);
    assert_eq!(printer.run(), Ok(()));
    assert_eq!(printer.run(), Ok(()));
    assert_eq!(printer.run(), Ok(()));
    assert_eq!(printer.counter(), 3);
    printer.terminate();
    assert_eq!(printer.counter(), 3);
}

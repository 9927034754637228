use arena::clash::Log;

#[test]
fn counts_lines_holding_text() {
    let mut log = Log::init();
    log.add("Player is knocked back.");
    log.add("Bird crackles with static electricity.");
    log.add("Bird is knocked back.");
    assert_eq!(2, log.contains_count("is knocked back"));
    assert_eq!(1, log.contains_count("crackles"));
    assert_eq!(0, log.contains_count("freezes over"));
    assert_eq!(3, log.contains_count(""));
    assert_eq!(3, log.logs.len());
}

//! Cleaning plans, results and process-trimming rules.

use memclean::mem::{
    clean_by_level, comfort_protected_names, critical_protected_names, do_clean_all, do_flush_cache,
    do_trim, is_protected, measure_avail_delta, memory_snapshot, physical_usage_percent, process_key,
    raise_privileges, trim_candidate, worth_trimming, working_set_freed, AllCleanResult, CacheResult,
    CleanStep, Measure, MemStatus, MemoryListCommand, PlannedStep, Privilege, StepReport, TrimOptions,
    TrimReport, TrimResult,
};

#[test]
fn clean_plans_by_level() {
    let std_plan = clean_by_level(1);
    let deep = clean_by_level(2);
    assert_eq!(std_plan.steps.len(), 5);
    assert_eq!(deep.steps.len(), 8);
    assert_eq!(&deep.steps[..5], &std_plan.steps[..]);
    assert_eq!(std_plan.steps[0].step, CleanStep::EnablePrivilege(Privilege::IncreaseQuota));
    assert_eq!(std_plan.steps[1].step, CleanStep::CombinePhysicalMemory);
    assert_eq!(std_plan.steps[2].step, CleanStep::TrimProcesses);
    assert_eq!(std_plan.steps[3], PlannedStep { step: CleanStep::FlushFileCache, measure: Measure::Always });
    assert_eq!(
        std_plan.steps[4].step,
        CleanStep::MemoryList(MemoryListCommand::PurgeLowPriorityStandbyList)
    );
    assert_eq!(deep.steps[5].step, CleanStep::MemoryList(MemoryListCommand::EmptyWorkingSets));
    assert_eq!(deep.steps[6].step, CleanStep::MemoryList(MemoryListCommand::PurgeStandbyList));
    assert_eq!(deep.steps[7].step, CleanStep::MemoryList(MemoryListCommand::FlushModifiedList));
    assert_eq!(deep.message, "深度清理完成");
    assert_eq!(clean_by_level(3).steps, deep.steps);
    assert_eq!(clean_by_level(0).steps, std_plan.steps);
    assert_eq!(clean_by_level(0).message, "标准清理完成");
}

#[test]
fn memory_list_codes_and_privileges() {
    assert_eq!(MemoryListCommand::EmptyWorkingSets.code(), 2);
    assert_eq!(MemoryListCommand::FlushModifiedList.code(), 3);
    assert_eq!(MemoryListCommand::PurgeStandbyList.code(), 4);
    assert_eq!(MemoryListCommand::PurgeLowPriorityStandbyList.code(), 5);
    let names: Vec<&str> = raise_privileges().iter().map(|p| p.name()).collect();
    assert_eq!(names, vec!["SeIncreaseQuotaPrivilege", "SeProfileSingleProcessPrivilege", "SeDebugPrivilege"]);
}

#[test]
fn trim_and_cache_results() {
    assert_eq!(do_trim(false).len(), 1);
    assert_eq!(do_trim(false)[0].step, CleanStep::TrimProcesses);
    // Brute: one system-wide emptying, measured.
    let brute_plan = do_trim(true);
    assert_eq!(brute_plan.len(), 1);
    assert_eq!(brute_plan[0].step, CleanStep::MemoryList(MemoryListCommand::EmptyWorkingSets));
    assert_eq!(brute_plan[0].measure, Measure::Always);
    let gentle = [StepReport { done: true, freed_bytes: 500, trimmed: 3 }];
    assert_eq!(TrimResult::from_reports(false, &gentle), TrimResult { trimmed: 3, freed_bytes: 500 });
    let brute = [StepReport::measured(Measure::Always, false, 100, 900)];
    assert_eq!(TrimResult::from_reports(true, &brute), TrimResult { trimmed: 0, freed_bytes: 800 });
    // The cache flush empties the file cache and the system working sets.
    let cache_plan = do_flush_cache();
    assert_eq!(cache_plan.len(), 2);
    assert_eq!(cache_plan[0].step, CleanStep::FlushFileCache);
    assert_eq!(cache_plan[1].step, CleanStep::MemoryList(MemoryListCommand::EmptyWorkingSets));
    assert_eq!(CacheResult::from_readings(100, 900), CacheResult { freed_bytes: 800 });
    assert_eq!(CacheResult::from_readings(900, 100), CacheResult { freed_bytes: 0 });
}

#[test]
fn clean_all_result() {
    let plan = do_clean_all(true);
    assert_eq!(plan.len(), 7);
    assert_eq!(plan[3].step, CleanStep::MemoryList(MemoryListCommand::EmptyWorkingSets));
    assert_eq!(plan[6].step, CleanStep::MemoryList(MemoryListCommand::EmptyWorkingSets));
    let gentle_plan = do_clean_all(false);
    assert_eq!(gentle_plan[3].step, CleanStep::TrimProcesses);
    assert_eq!(gentle_plan[6].step, CleanStep::MemoryList(MemoryListCommand::EmptyWorkingSets));
    let reports = [
        StepReport::measured(Measure::Unmeasured, true, 0, 0),
        StepReport::measured(Measure::Unmeasured, false, 0, 0),
        StepReport::measured(Measure::Always, true, 1000, 1600),
        StepReport::measured(Measure::Unmeasured, true, 0, 0),
        StepReport::measured(Measure::IfDone, false, 1600, 1600),
        StepReport::measured(Measure::IfDone, true, 1600, 2000),
        StepReport::measured(Measure::Unmeasured, false, 0, 0),
    ];
    let r = AllCleanResult::from_reports(true, &reports, 1000, 2500);
    assert!(r.syscache_cleared);
    assert_eq!(r.syscache_freed_bytes, 600);
    assert!(r.system_ws_cleared);
    assert!(!r.standby_cleared);
    assert_eq!(r.standby_freed_bytes, 0);
    assert!(r.modified_cleared);
    assert_eq!(r.modified_freed_bytes, 400);
    assert_eq!(r.global_freed_bytes, 1500);
    let gentle = AllCleanResult::from_reports(false, &reports, 3000, 2500);
    assert!(!gentle.system_ws_cleared);
    assert_eq!(gentle.global_freed_bytes, 0);
    // Only the brute run's own emptying is reported, not the final one.
    let mut last_done = reports;
    last_done[6] = StepReport::measured(Measure::Unmeasured, true, 0, 0);
    assert!(!AllCleanResult::from_reports(false, &last_done, 0, 0).system_ws_cleared);
    let mut brute_failed = last_done;
    brute_failed[3] = StepReport::measured(Measure::Unmeasured, false, 0, 0);
    assert!(!AllCleanResult::from_reports(true, &brute_failed, 0, 0).system_ws_cleared);
}

#[test]
fn measure_avail_delta_rules() {
    assert_eq!(measure_avail_delta(true, 100, 350), (true, 250));
    assert_eq!(measure_avail_delta(true, 350, 100), (true, 0));
    assert_eq!(measure_avail_delta(false, 100, 350), (false, 0));
}

fn name_buf(s: &str) -> Vec<u16> {
    let mut v: Vec<u16> = s.encode_utf16().collect();
    v.resize(260, 0);
    v
}

#[test]
fn trimming_candidates() {
    let gentle = TrimOptions::default();
    assert!(!gentle.aggressive && gentle.exclude.is_empty());
    let aggressive = TrimOptions { aggressive: true, exclude: vec!["game.exe".to_string()] };
    assert!(trim_candidate(1234, 99, &name_buf("notepad.exe"), &gentle));
    assert!(!trim_candidate(0, 99, &name_buf("notepad.exe"), &gentle));
    assert!(!trim_candidate(99, 99, &name_buf("notepad.exe"), &gentle));
    assert!(!trim_candidate(1234, 99, &name_buf(" LSASS.EXE "), &aggressive));
    assert!(!trim_candidate(1234, 99, &name_buf("Explorer.exe"), &gentle));
    assert!(trim_candidate(1234, 99, &name_buf("Explorer.exe"), &aggressive));
    assert!(!trim_candidate(1234, 99, &name_buf("Game.EXE"), &aggressive));
    assert!(trim_candidate(1234, 99, &name_buf("Game.EXE"), &gentle));
    // Exclusions are names without ".exe"; the file name still matches.
    let spare_notepad = TrimOptions { aggressive: false, exclude: vec!["notepad".to_string()] };
    assert!(!trim_candidate(1234, 99, &name_buf("Notepad.exe"), &spare_notepad));
    assert!(!trim_candidate(1234, 99, &name_buf("notepad"), &spare_notepad));
    assert!(trim_candidate(1234, 99, &name_buf("notepad2.exe"), &spare_notepad));
    assert!(trim_candidate(1234, 99, &name_buf("notepad.exe.bak"), &spare_notepad));
    assert!(trim_candidate(1234, 99, &name_buf("exe"), &spare_notepad));
    assert_eq!(process_key(&name_buf("  Memory Compression ")), "memory compression");
    assert_eq!(critical_protected_names().len(), 12);
    assert_eq!(comfort_protected_names().len(), 11);
    assert!(is_protected(&"dwm.exe".to_string(), true));
    assert!(!is_protected(&"cmd.exe".to_string(), true));
    assert!(is_protected(&"cmd.exe".to_string(), false));
}

#[test]
fn trimming_thresholds_and_reports() {
    assert!(worth_trimming(None));
    assert!(!worth_trimming(Some(8 * 1024 * 1024 - 1)));
    assert!(worth_trimming(Some(8 * 1024 * 1024)));
    assert_eq!(working_set_freed(5000, Some(1000)), 4000);
    assert_eq!(working_set_freed(5000, Some(9000)), 0);
    assert_eq!(working_set_freed(5000, None), 0);
    let mut r = TrimReport::default();
    r.record(100);
    r.record(250);
    assert_eq!(r, TrimReport { trimmed: 2, process_freed_bytes: 350 });
    assert_eq!(StepReport::from_trim(&r), StepReport { done: true, freed_bytes: 350, trimmed: 2 });
}

#[test]
fn usage_percentages() {
    let m = MemStatus { total_phys: 0, avail_phys: 0, total_page_file: 100, avail_page_file: 200 };
    let s = memory_snapshot(&m, u64::MAX, u64::MAX);
    assert_eq!(s.phys_percent, 0);
    assert_eq!(s.page_used, 0);
    assert_eq!(s.page_percent, 0);
    // The product saturates before the division.
    assert_eq!(s.cache_percent, 1);
    let full = MemStatus { total_phys: 1000, avail_phys: 0, total_page_file: 3, avail_page_file: 2 };
    assert_eq!(physical_usage_percent(&full), 100);
    assert_eq!(memory_snapshot(&full, 0, 0).page_percent, 33);
}

#[test]
fn trim_pass_accounting() {
    let mut r = TrimReport::default();
    for outcome in [Some(100u64), None, Some(250), None, Some(0)] {
        r.account(outcome);
    }
    assert_eq!(r, TrimReport { trimmed: 3, process_freed_bytes: 350 });
    let mut untouched = TrimReport { trimmed: 7, process_freed_bytes: 9 };
    untouched.account(None);
    assert_eq!(untouched, TrimReport { trimmed: 7, process_freed_bytes: 9 });
}

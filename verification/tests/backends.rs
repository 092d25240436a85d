use system_memory::error::MemError;
use system_memory::linux::KernelMemInfo;
use system_memory::linux::SysinfoReply;
use system_memory::linux::get_sysinfo;
use system_memory::linux::interpret_sysinfo;
use system_memory::macos::PageSizeReply;
use system_memory::macos::PortReleaseReply;
use system_memory::macos::SysctlReply;
use system_memory::macos::VmStats;
use system_memory::macos::VmStatsReply;
use system_memory::macos::calculate_available_memory;
use system_memory::macos::interpret_page_size;
use system_memory::macos::interpret_total_memory;
use system_memory::macos::interpret_vm_statistics;
use system_memory::macos::total;
use system_memory::windows::MemoryStatus;
use system_memory::windows::MemoryStatusReply;
use system_memory::windows::interpret_mem_status;
use system_memory::windows::mem_status;

#[test]
fn kernel_statistics_success_hands_back_both_fields() {
    let reply = SysinfoReply {
        return_code: 0,
        totalram: 16_000_000_000,
        freeram: 4_000_000_000,
    };
    assert_eq!(
        interpret_sysinfo(&reply, 0),
        Ok(KernelMemInfo {
            totalram: 16_000_000_000,
            freeram: 4_000_000_000,
        })
    );
    assert_eq!(get_sysinfo(&reply).totalram, 16_000_000_000);
    assert_eq!(get_sysinfo(&reply).freeram, 4_000_000_000);
}

#[test]
fn kernel_statistics_failure_is_a_structured_error() {
    // Fault injection: a negative return code with error code 13 pending
    // must surface as a structured error, never as a silent zero.
    let reply = SysinfoReply {
        return_code: -1,
        totalram: 0,
        freeram: 0,
    };
    assert_eq!(interpret_sysinfo(&reply, 13), Err(MemError::Code(13)));
}

#[test]
fn page_size_failure_with_code_names_the_code() {
    let reply = PageSizeReply { return_value: -1 };
    assert_eq!(interpret_page_size(&reply, 22), Err(MemError::Code(22)));
}

#[test]
fn page_size_failure_without_code_is_unsupported() {
    // The lookup left the cleared error state untouched: that is the
    // "unsupported" shape, distinct from every coded failure.
    let reply = PageSizeReply { return_value: -1 };
    assert_eq!(interpret_page_size(&reply, 0), Err(MemError::Unsupported));
    assert_ne!(interpret_page_size(&reply, 0), Err(MemError::Code(0)));
}

#[test]
fn page_size_success_is_the_returned_value() {
    let reply = PageSizeReply { return_value: 16384 };
    assert_eq!(interpret_page_size(&reply, 0), Ok(16384));
}

#[test]
fn total_memory_lookup_success_and_failure() {
    let ok = SysctlReply {
        return_value: 0,
        memsize: 8_000_000_000,
    };
    assert_eq!(interpret_total_memory(&ok, 0), Ok(8_000_000_000));
    assert_eq!(total(&ok), 8_000_000_000);

    let bad = SysctlReply {
        return_value: -1,
        memsize: 0,
    };
    assert_eq!(interpret_total_memory(&bad, 12), Err(MemError::Code(12)));
}

#[test]
fn vm_statistics_needs_query_and_release_to_succeed() {
    let stats = VmStatsReply {
        return_code: 0,
        active_count: 100,
        free_count: 50,
    };
    let released = PortReleaseReply { return_code: 0 };
    assert_eq!(
        interpret_vm_statistics(&stats, &released, 0),
        Ok(VmStats {
            active_count: 100,
            free_count: 50,
        })
    );

    // A failed release weighs as much as a failed query.
    let release_failed = PortReleaseReply { return_code: 15 };
    assert_eq!(
        interpret_vm_statistics(&stats, &release_failed, 32),
        Err(MemError::Code(32))
    );

    let query_failed = VmStatsReply {
        return_code: 5,
        active_count: 0,
        free_count: 0,
    };
    assert_eq!(
        interpret_vm_statistics(&query_failed, &released, 9),
        Err(MemError::Code(9))
    );
}

#[test]
fn available_memory_formula_is_pages_times_page_size() {
    let stats = VmStats {
        active_count: 100,
        free_count: 50,
    };
    assert_eq!(calculate_available_memory(4096, &stats), 614_400);

    let none_free = VmStats {
        active_count: 0,
        free_count: 0,
    };
    assert_eq!(calculate_available_memory(4096, &none_free), 0);
}

#[test]
fn available_memory_formula_widens_before_summing() {
    // The counters are 32-bit, but their sum is not: both at the maximum,
    // the byte count is exact as long as it fits 64 bits.
    let saturated = VmStats {
        active_count: u32::MAX,
        free_count: u32::MAX,
    };
    assert_eq!(
        calculate_available_memory(1, &saturated),
        2 * (u32::MAX as u64)
    );
    assert_eq!(
        calculate_available_memory(4096, &saturated),
        2 * (u32::MAX as u64) * 4096
    );
}

#[test]
fn memory_status_success_hands_back_both_fields() {
    let reply = MemoryStatusReply {
        return_value: 1,
        total_phys: 34_359_738_368,
        avail_phys: 20_000_000_000,
    };
    assert_eq!(
        interpret_mem_status(&reply, 0),
        Ok(MemoryStatus {
            total_phys: 34_359_738_368,
            avail_phys: 20_000_000_000,
        })
    );
    assert_eq!(mem_status(&reply).total_phys, 34_359_738_368);
    assert_eq!(mem_status(&reply).avail_phys, 20_000_000_000);
}

#[test]
fn memory_status_failure_is_a_structured_error() {
    let reply = MemoryStatusReply {
        return_value: 0,
        total_phys: 0,
        avail_phys: 0,
    };
    assert_eq!(interpret_mem_status(&reply, 87), Err(MemError::Code(87)));
}

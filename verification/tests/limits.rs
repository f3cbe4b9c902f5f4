use sandbox_host::limits::{
    check_limits_fit, compute_limits, globals_region_size, LimitError, ResourceLimits,
    HEAP_ADDRESS_SPACE_SIZE, HEAP_MEMORY_SIZE, MAX_GLOBALS_FOOTPRINT, PAGE_SIZE, STACK_SIZE,
};
use sandbox_host::fault::Fault;
use sandbox_host::wasm_module::context_limits;

#[test]
fn ten_bytes_of_globals_take_one_page() {
    assert_eq!(globals_region_size(10), Ok(4096));
}

#[test]
fn one_byte_over_a_page_takes_two_pages() {
    assert_eq!(globals_region_size(4097), Ok(8192));
}

#[test]
fn whole_pages_are_kept() {
    assert_eq!(globals_region_size(1), Ok(4096));
    assert_eq!(globals_region_size(4095), Ok(4096));
    assert_eq!(globals_region_size(4096), Ok(4096));
    assert_eq!(globals_region_size(8192), Ok(8192));
    assert_eq!(globals_region_size(8193), Ok(12288));
}

#[test]
fn no_globals_are_refused() {
    assert_eq!(globals_region_size(0), Err(LimitError::EmptyFootprint));
    assert_eq!(compute_limits(0), Err(LimitError::EmptyFootprint));
}

#[test]
fn footprint_above_the_bound_is_refused() {
    assert_eq!(globals_region_size(MAX_GLOBALS_FOOTPRINT), Ok(MAX_GLOBALS_FOOTPRINT));
    assert_eq!(
        globals_region_size(MAX_GLOBALS_FOOTPRINT + 1),
        Err(LimitError::FootprintTooLarge)
    );
    assert_eq!(globals_region_size(u64::MAX), Err(LimitError::FootprintTooLarge));
    assert_eq!(compute_limits(u64::MAX), Err(LimitError::FootprintTooLarge));
}

#[test]
fn limits_are_fixed_but_for_the_globals() {
    let limits = compute_limits(10).unwrap();
    assert_eq!(limits.heap_memory_size, 4 * 1024 * 1024 * 1024);
    assert_eq!(limits.heap_address_space_size, 8 * 1024 * 1024 * 1024);
    assert_eq!(limits.stack_size, 16 * 1024 * 1024);
    assert_eq!(limits.globals_size, 4096);
    assert_eq!(limits.heap_memory_size, HEAP_MEMORY_SIZE);
    assert_eq!(limits.heap_address_space_size, HEAP_ADDRESS_SPACE_SIZE);
    assert_eq!(limits.stack_size, STACK_SIZE);
    assert_eq!(compute_limits(4097).unwrap().globals_size, 2 * PAGE_SIZE);
}

#[test]
fn address_space_is_larger_than_the_heap() {
    let limits = compute_limits(1).unwrap();
    assert!(limits.heap_address_space_size > limits.heap_memory_size);
}

#[test]
fn rounded_size_is_the_least_page_multiple() {
    let mut declared: u64 = 1;
    while declared < 20000 {
        let size = globals_region_size(declared).unwrap();
        assert_eq!(size % PAGE_SIZE, 0);
        assert!(size >= declared);
        assert!(size - declared < PAGE_SIZE);
        declared += 37;
    }
}

#[test]
fn limits_that_cannot_be_addressed_do_not_fit() {
    let huge = ResourceLimits {
        heap_memory_size: 4096,
        heap_address_space_size: u64::MAX - 4095,
        stack_size: 4096,
        globals_size: 4096,
    };
    assert!(!check_limits_fit(&huge));
    let near = ResourceLimits {
        heap_memory_size: 4096,
        heap_address_space_size: u64::MAX - 0x10_0000 - 8192 + 1,
        stack_size: 4096,
        globals_size: 4096,
    };
    assert!(!check_limits_fit(&near));
    let small = ResourceLimits {
        heap_memory_size: 4096,
        heap_address_space_size: 8192,
        stack_size: 4096,
        globals_size: 4096,
    };
    assert!(check_limits_fit(&small));
}

#[test]
fn context_limits_follow_the_declared_footprint() {
    assert_eq!(context_limits(0), Err(Fault::ResourceLimitConstructionFailed));
    assert_eq!(
        context_limits(MAX_GLOBALS_FOOTPRINT as usize + 1),
        Err(Fault::ResourceLimitConstructionFailed)
    );
    let limits = context_limits(10).unwrap();
    assert_eq!(limits.globals_size, 4096);
    assert_eq!(limits.heap_memory_size, HEAP_MEMORY_SIZE);
    assert_eq!(context_limits(4097).unwrap().globals_size, 8192);
}

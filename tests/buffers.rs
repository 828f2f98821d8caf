use jadis::buffer::{
    plan_allocation, select_memory_type, Allocation, Buffer, BufferError, MemoryTypeDesc, COHERENT,
    CPU_VISIBLE, DEVICE_LOCAL,
};

fn types() -> Vec<MemoryTypeDesc> {
    vec![
        MemoryTypeDesc { properties: DEVICE_LOCAL, heap_index: 0 },
        MemoryTypeDesc { properties: CPU_VISIBLE | COHERENT, heap_index: 1 },
        MemoryTypeDesc { properties: CPU_VISIBLE, heap_index: 1 },
    ]
}

fn bound(size: u64) -> Buffer<u32, u32> {
    Buffer::new_bound(7, 9, Allocation { memory_type: 1, size })
}

#[test]
fn first_suitable_memory_type_is_chosen() {
    assert!(matches!(select_memory_type(&types(), 0b111, CPU_VISIBLE), Ok(1)));
    assert!(matches!(select_memory_type(&types(), 0b111, DEVICE_LOCAL), Ok(0)));
    assert!(matches!(select_memory_type(&types(), 0b111, 0), Ok(0)));
}

#[test]
fn type_mask_excludes_memory_types() {
    assert!(matches!(select_memory_type(&types(), 0b101, CPU_VISIBLE), Ok(2)));
}

#[test]
fn no_suitable_memory_type() {
    assert!(matches!(
        select_memory_type(&types(), 0b111, DEVICE_LOCAL | CPU_VISIBLE),
        Err(BufferError::NoSuitableMemoryType)
    ));
    assert!(matches!(select_memory_type(&types(), 0b001, CPU_VISIBLE), Err(BufferError::NoSuitableMemoryType)));
    assert!(matches!(select_memory_type(&[], u32::MAX, 0), Err(BufferError::NoSuitableMemoryType)));
}

#[test]
fn chosen_type_conforms_for_every_request() {
    let types = types();
    for mask in 0u32..8 {
        for props in 0u16..32 {
            match select_memory_type(&types, mask, props) {
                Ok(id) => {
                    assert!(mask & (1 << id) != 0);
                    assert_eq!(types[id].properties & props, props);
                }
                Err(e) => {
                    assert!(matches!(e, BufferError::NoSuitableMemoryType));
                    for (id, ty) in types.iter().enumerate() {
                        assert!(mask & (1 << id) == 0 || ty.properties & props != props);
                    }
                }
            }
        }
    }
}

#[test]
fn allocation_plan_keeps_the_required_size() {
    match plan_allocation(&types(), 0b110, 4096, CPU_VISIBLE | COHERENT) {
        Ok(a) => assert_eq!(a, Allocation { memory_type: 1, size: 4096 }),
        Err(e) => panic!("unexpected {:?}", e),
    }
    assert!(matches!(plan_allocation(&types(), 0b001, 64, CPU_VISIBLE), Err(BufferError::NoSuitableMemoryType)));
}

#[test]
fn fill_within_size_succeeds() {
    let buf = bound(16);
    assert!(matches!(buf.fill(&[1u32, 2, 3, 4]), Ok(16)));
    assert!(matches!(buf.fill(&[1u8, 2, 3]), Ok(3)));
    assert!(matches!(buf.fill::<u64>(&[]), Ok(0)));
}

#[test]
fn fill_beyond_size_fails() {
    let buf = bound(16);
    assert!(matches!(buf.fill(&[1u32, 2, 3, 4, 5]), Err(BufferError::PayloadTooLarge)));
    assert!(matches!(buf.fill(&[0u64; 3]), Err(BufferError::PayloadTooLarge)));
}

#[test]
fn can_hold_matches_byte_length() {
    let buf = bound(12);
    assert!(buf.can_hold(&[0u32; 3]));
    assert!(!buf.can_hold(&[0u32; 4]));
    assert!(buf.can_hold(&[[0u8; 4]; 3]));
    assert!(!buf.can_hold(&[0u64; 2]));
}

#[test]
fn buffer_size_and_emptiness() {
    let buf = bound(16);
    assert_eq!(buf.len(), 16);
    assert!(!buf.is_empty());
    assert!(bound(0).is_empty());
}

#[test]
fn destroy_hands_out_handles_once() {
    let mut buf = bound(16);
    assert_eq!(buf.destroy(), (Some(7), Some(9)));
    assert!(buf.is_empty());
    assert_eq!(buf.len(), 16);
    assert_eq!(buf.destroy(), (None, None));
    assert!(matches!(buf.fill(&[1u8]), Err(BufferError::Destroyed)));
}

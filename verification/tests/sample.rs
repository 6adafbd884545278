use aya_syscall::context::SyscallContext;
use aya_syscall::sample::{my_syscall, MyData, MY_DATA_SIZE};

fn run(value: i32) -> (i64, Option<MyData>) {
    let mut region = MyData { value }.to_bytes();
    let ret = my_syscall(SyscallContext::new(&mut region));
    (ret, MyData::from_bytes(&region))
}

#[test]
fn sample_doubles_21() {
    assert_eq!(run(21), (0, Some(MyData { value: 42 })));
}

#[test]
fn sample_doubles_zero_and_negatives() {
    assert_eq!(run(0), (0, Some(MyData { value: 0 })));
    assert_eq!(run(-1), (0, Some(MyData { value: -2 })));
    assert_eq!(run(-21), (0, Some(MyData { value: -42 })));
}

#[test]
fn sample_doubles_up_to_the_limits() {
    assert_eq!(run(i32::MAX / 2), (0, Some(MyData { value: i32::MAX - 1 })));
    assert_eq!(run(i32::MIN / 2), (0, Some(MyData { value: i32::MIN })));
}

#[test]
fn sample_leaves_the_rest_of_the_region() {
    let mut region = vec![5, 0, 0, 0, 0xaa, 0xbb];
    assert_eq!(my_syscall(SyscallContext::new(&mut region)), 0);
    assert_eq!(region, vec![10, 0, 0, 0, 0xaa, 0xbb]);
}

#[test]
fn context_hands_out_the_memory_it_wraps() {
    let mut region = vec![1, 2, 3];
    {
        let context = SyscallContext::new(&mut region);
        let memory = context.as_ptr();
        assert_eq!(*memory, vec![1, 2, 3]);
        memory[1] = 9;
    }
    assert_eq!(region, vec![1, 9, 3]);
}

#[test]
fn bytes_are_least_significant_first() {
    assert_eq!(MyData { value: 21 }.to_bytes(), vec![21, 0, 0, 0]);
    assert_eq!(MyData { value: 0x0102_0304 }.to_bytes(), vec![4, 3, 2, 1]);
    assert_eq!(MyData { value: -1 }.to_bytes(), vec![255, 255, 255, 255]);
    assert_eq!(MyData { value: -2 }.to_bytes(), vec![254, 255, 255, 255]);
    assert_eq!(MyData { value: i32::MIN }.to_bytes(), vec![0, 0, 0, 128]);
    assert_eq!(MyData { value: i32::MAX }.to_bytes(), vec![255, 255, 255, 127]);
}

#[test]
fn bytes_agree_with_the_machine() {
    for value in [0, 1, -1, 21, 42, 255, 256, -256, 65_536, i32::MAX, i32::MIN] {
        assert_eq!(MyData { value }.to_bytes(), value.to_le_bytes().to_vec());
        assert_eq!(
            MyData::from_bytes(&value.to_le_bytes().to_vec()),
            Some(MyData { value })
        );
    }
}

#[test]
fn bytes_round_trip() {
    for value in [0, 7, -7, 1 << 30, -(1 << 30), i32::MAX, i32::MIN] {
        let data = MyData { value };
        assert_eq!(MyData::from_bytes(&data.to_bytes()), Some(data));
    }
}

#[test]
fn memory_of_another_size_holds_no_value() {
    assert_eq!(MY_DATA_SIZE, 4);
    assert_eq!(MyData::from_bytes(&Vec::new()), None);
    assert_eq!(MyData::from_bytes(&vec![1, 2, 3]), None);
    assert_eq!(MyData::from_bytes(&vec![1, 2, 3, 4, 5]), None);
}

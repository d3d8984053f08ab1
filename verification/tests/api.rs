use embedded_dma::{ReadBuffer, WriteBuffer};

fn api_read<W, B>(buffer: B) -> (usize, usize)
where
    B: ReadBuffer<Word = W>,
{
    buffer.read_buffer()
}

fn api_write<W, B>(mut buffer: B) -> (usize, usize)
where
    B: WriteBuffer<Word = W>,
{
    buffer.write_buffer()
}

fn address<T: ?Sized>(value: &T) -> usize {
    std::ptr::from_ref(value).addr()
}

#[test]
fn read_api() {
    const SIZE: usize = 128;
    static BUF: [u8; SIZE] = [0u8; SIZE];

    let (ptr, size_local) = api_read::<u8, _>(&BUF);
    assert_eq!(ptr, address(&BUF[0]));
    assert_eq!(size_local, SIZE);
}

#[test]
fn write_api() {
    const SIZE: usize = 128;
    let buf: &'static mut [u8; SIZE] = Box::leak(Box::new([0u8; SIZE]));
    let start = address(&buf[0]);

    let (ptr, size_local) = api_write::<u8, _>(buf);
    assert_eq!(ptr, start);
    assert_eq!(size_local, SIZE);
}

#[test]
fn read_descriptor_of_zeroed_array_repeats() {
    static BUF: [u8; 128] = [0u8; 128];
    let owner: &'static [u8; 128] = &BUF;

    let first = owner.read_buffer();
    let second = owner.read_buffer();
    assert_eq!(first, (address(&BUF[0]), 128));
    assert_eq!(second, first);
}

#[test]
fn write_descriptor_may_be_taken_twice() {
    let mut owner: &'static mut [u8; 128] = Box::leak(Box::new([0u8; 128]));
    let start = address(&owner[0]);

    let first = owner.write_buffer();
    let second = owner.write_buffer();
    assert_eq!(first, (start, 128));
    assert_eq!(second, (start, 128));
    assert_eq!(*owner, [0u8; 128]);
}

#[test]
fn slice_of_words_counts_words_not_bytes() {
    let owner: &'static [u32] = Box::leak(vec![7u32; 10].into_boxed_slice());

    let (ptr, len) = owner.read_buffer();
    assert_eq!(len, 10);
    assert_ne!(len, 40);
    assert_eq!(ptr, address(&owner[0]));
}

#[test]
fn owner_moved_keeps_its_descriptor() {
    let owner: Box<[u16; 6]> = Box::new([1, 2, 3, 4, 5, 6]);
    let before = owner.read_buffer();
    let moved = owner;
    let after = api_read::<u16, _>(moved);
    assert_eq!(before.1, 6);
    assert_eq!(after, before);
}

#[test]
fn heap_owners_describe_their_contents() {
    let boxed: Box<[i64; 3]> = Box::new([-1, 0, 1]);
    assert_eq!(boxed.read_buffer(), (address(&boxed[0]), 3));

    let shared: std::rc::Rc<[u8; 5]> = std::rc::Rc::new([9; 5]);
    assert_eq!(shared.read_buffer(), (address(&shared[0]), 5));

    let atomic: std::sync::Arc<[i16; 2]> = std::sync::Arc::new([3, 4]);
    assert_eq!(atomic.read_buffer(), (address(&atomic[0]), 2));

    let mut grown: Vec<u64> = vec![1, 2, 3, 4];
    assert_eq!(grown.read_buffer(), (address(&grown[0]), 4));
    assert_eq!(grown.write_buffer(), (address(&grown[0]), 4));
    assert_eq!(grown, vec![1, 2, 3, 4]);

    let mut boxed_slice: Box<[i32]> = vec![0i32; 9].into_boxed_slice();
    let start = address(&boxed_slice[0]);
    assert_eq!(boxed_slice.write_buffer(), (start, 9));
    assert_eq!(boxed_slice.write_buffer(), (start, 9));
}

#[test]
fn empty_buffers_have_no_words() {
    let owner: Box<[u32; 0]> = Box::new([]);
    let (ptr, len) = owner.read_buffer();
    assert_eq!(len, 0);
    assert_ne!(ptr, 0);

    let grown: Vec<u8> = Vec::new();
    assert_eq!(grown.read_buffer().1, 0);
}

#[test]
fn owners_hand_out_aligned_addresses() {
    let owner: &'static [u32] = Box::leak(vec![0u32; 3].into_boxed_slice());
    let (ptr, len) = owner.read_buffer();
    assert_ne!(ptr, 0);
    assert_eq!(ptr % std::mem::align_of::<u32>(), 0);
    assert_eq!(len, 3);

    let mut grown: Vec<i64> = vec![0; 2];
    assert_eq!(grown.write_buffer().0 % std::mem::align_of::<i64>(), 0);

    let mut boxed: Box<u16> = Box::new(7);
    let (at, one) = boxed.write_buffer();
    assert_eq!(at % std::mem::align_of::<u16>(), 0);
    assert_eq!(one, 1);
    assert_eq!(*boxed, 7);
}

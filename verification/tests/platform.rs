use bootmenu::bio::bdev_t;
use bootmenu::bio::describe;
use bootmenu::bio::get_bdevs;
use bootmenu::bio::BioError;
use bootmenu::bio::BlockDev;
use bootmenu::bio::OpenDevice;
use bootmenu::bio::SeekFrom;
use bootmenu::lk_fs::c_string;
use bootmenu::lk_fs::mount;
use bootmenu::lk_fs::LkFile;
use bootmenu::lk_fs::OpenError;
use bootmenu::lk_list::collect;
use bootmenu::lk_list::is_closed;
use bootmenu::lk_list::list_node;
use bootmenu::lk_list::LkListIterator;

fn ring(order: &[usize], len: usize) -> Vec<list_node> {
    let mut nodes = vec![list_node { prev: 0, next: 0 }; len];
    for (k, at) in order.iter().enumerate() {
        nodes[*at].next = order[(k + 1) % order.len()];
        nodes[*at].prev = order[(k + order.len() - 1) % order.len()];
    }
    nodes
}

fn raw(name: &[u8], label: Option<&[u8]>, is_leaf: bool) -> bdev_t {
    bdev_t {
        name: name.to_vec(),
        size: 4096,
        block_size: 512,
        block_count: 8,
        label: label.map(|l| l.to_vec()),
        is_leaf,
    }
}

#[test]
fn open_result_is_classified() {
    assert_eq!(LkFile::open(0, 0x1000).unwrap().handle(), 0x1000);
    assert_eq!(LkFile::open(5, 1).unwrap().handle(), 1);
    assert_eq!(LkFile::open(-2, 0x1000).unwrap_err(), OpenError::NotFound);
    assert_eq!(LkFile::open(-2, 0).unwrap_err(), OpenError::NotFound);
    assert_eq!(LkFile::open(-1, 0x1000).unwrap_err(), OpenError::Unknown { code: -1 });
    assert_eq!(LkFile::open(-19, 0).unwrap_err(), OpenError::Unknown { code: -19 });
    assert_eq!(LkFile::open(0, 0).unwrap_err(), OpenError::NoHandle);
}

#[test]
fn open_path_must_not_hold_a_zero_byte() {
    assert_eq!(LkFile::path_for_open(b"/sd0/extlinux/extlinux.conf").unwrap(), b"/sd0/extlinux/extlinux.conf\0".to_vec());
    assert_eq!(LkFile::path_for_open(b"/sd0\0/x").unwrap_err(), OpenError::InvalidPath);
    assert_eq!(c_string(b"ext2"), Some(b"ext2\0".to_vec()));
    assert_eq!(c_string(b""), Some(vec![0u8]));
    assert_eq!(c_string(b"\0"), None);
}

#[test]
fn read_and_stat_results_are_classified() {
    let file = LkFile::open(0, 8).unwrap();
    assert_eq!(file.read(0), Some(0));
    assert_eq!(file.read(512), Some(512));
    assert_eq!(file.read(-1), None);
    assert_eq!(file.stat(0, false, 1234), Some((false, 1234)));
    assert_eq!(file.stat(0, true, 0), Some((true, 0)));
    assert_eq!(file.stat(-1, false, 1234), None);
    assert_eq!(file.stat(0, false, -1), None);
}

#[test]
fn mount_counts_an_already_mounted_volume() {
    assert!(mount(0));
    assert!(mount(1));
    assert!(mount(-19));
    assert!(!mount(-1));
    assert!(!mount(-2));
    assert!(!mount(-20));
}

#[test]
fn list_walk_follows_next_up_to_the_head() {
    let nodes = ring(&[0, 3, 1, 2], 4);
    assert!(is_closed(&nodes));
    assert_eq!(collect(&nodes, 0), vec![3, 1, 2]);
    assert_eq!(collect(&nodes, 1), vec![2, 0, 3]);
    let mut iter = LkListIterator::new(&nodes, 0).unwrap();
    assert_eq!(iter.next(), Some(3));
    assert_eq!(iter.next(), Some(1));
    assert_eq!(iter.next(), Some(2));
    assert_eq!(iter.next(), None);
    assert_eq!(iter.next(), None);
}

#[test]
fn list_with_only_a_head_is_empty() {
    let nodes = ring(&[0], 1);
    assert_eq!(collect(&nodes, 0), Vec::<usize>::new());
    let mut iter = LkListIterator::new(&nodes, 0).unwrap();
    assert_eq!(iter.next(), None);
    assert!(LkListIterator::new(&nodes, 1).is_none());
    assert!(LkListIterator::new(&[list_node { prev: 0, next: 1 }], 0).is_none());
}

#[test]
fn list_walk_is_cut_off_and_total() {
    let mut looped = ring(&[1, 2], 3);
    looped[0].next = 1;
    assert_eq!(collect(&looped, 0), vec![1, 2, 1]);
    let open = vec![list_node { prev: 0, next: 5 }];
    assert!(!is_closed(&open));
    assert_eq!(collect(&open, 0), Vec::<usize>::new());
    let nodes = ring(&[0, 1], 2);
    assert_eq!(collect(&nodes, 2), Vec::<usize>::new());
    assert_eq!(collect(&[], 0), Vec::<usize>::new());
}

#[test]
fn catalog_lists_devices_in_list_order() {
    let nodes = ring(&[0, 2, 1, 3], 4);
    let devices = vec![
        raw(b"", None, false),
        raw(b"wrp0p1", Some(b"esp"), true),
        raw(b"wrp0", None, false),
        raw(b"sd0", Some(b"boot"), true),
    ];
    let devs: Vec<BlockDev> = get_bdevs(&nodes, 0, &devices);
    let names: Vec<Vec<u8>> = devs.iter().map(|d| d.name.clone()).collect();
    assert_eq!(names, vec![b"wrp0".to_vec(), b"wrp0p1".to_vec(), b"sd0".to_vec()]);
    assert_eq!(devs[1].label, Some(b"esp".to_vec()));
    assert_eq!(devs[0].label, None);
    assert!(!devs[0].is_leaf);
    assert!(devs[1].is_leaf);
    assert_eq!((devs[2].size, devs[2].block_size, devs[2].block_count), (4096, 512, 8));
}

#[test]
fn catalog_skips_names_that_are_not_utf8() {
    let nodes = ring(&[0, 1, 2, 3], 4);
    let devices = vec![
        raw(b"", None, false),
        raw(b"bad\xffname", Some(b"esp"), true),
        raw(b"sd0", Some(b"la\xc3bel"), true),
        raw(b"sd1", None, true),
    ];
    let devs = get_bdevs(&nodes, 0, &devices);
    assert_eq!(devs.len(), 2);
    assert_eq!(devs[0].name, b"sd0".to_vec());
    assert_eq!(devs[0].label, None);
    assert_eq!(devs[1].name, b"sd1".to_vec());
    assert!(describe(&devices[1]).is_none());
    assert!(describe(&devices[3]).is_some());
}

#[test]
fn catalog_passes_over_nodes_without_a_device() {
    let nodes = ring(&[0, 1, 2], 3);
    let devices = vec![raw(b"", None, false), raw(b"sd0", None, true)];
    let devs = get_bdevs(&nodes, 0, &devices);
    assert_eq!(devs.len(), 1);
    assert_eq!(get_bdevs(&nodes, 9, &devices).len(), 0);
}

#[test]
fn fallback_label_prefers_the_volume_label() {
    let labelled = describe(&raw(b"wrp0p1", Some(b"esp"), true)).unwrap();
    assert_eq!(labelled.fallback_label(), b"esp".to_vec());
    let bare = describe(&raw(b"sd0p1", None, true)).unwrap();
    assert_eq!(bare.fallback_label(), b"sd0p1".to_vec());
}

#[test]
fn device_seek_moves_the_position() {
    let mut device = OpenDevice::new(1000);
    assert_eq!(device.read_pos(), 0);
    assert_eq!(device.seek(SeekFrom::Start(40)), Some(40));
    assert_eq!(device.seek(SeekFrom::Current(2)), Some(42));
    assert_eq!(device.seek(SeekFrom::Current(-42)), Some(0));
    assert_eq!(device.seek(SeekFrom::End(0)), Some(1000));
    assert_eq!(device.seek(SeekFrom::End(-1)), Some(999));
    assert_eq!(device.seek(SeekFrom::End(24)), Some(1024));
    assert_eq!(device.read_pos(), 1024);
    assert_eq!(device.seek(SeekFrom::Start(u64::MAX)), Some(u64::MAX));
}

#[test]
fn device_seek_outside_is_refused() {
    let mut device = OpenDevice::new(1000);
    assert_eq!(device.seek(SeekFrom::Start(10)), Some(10));
    assert_eq!(device.seek(SeekFrom::Current(-11)), None);
    assert_eq!(device.seek(SeekFrom::End(-1001)), None);
    assert_eq!(device.seek(SeekFrom::Current(i64::MIN)), None);
    assert_eq!(device.read_pos(), 10);
    assert_eq!(device.seek(SeekFrom::Start(u64::MAX)), Some(u64::MAX));
    assert_eq!(device.seek(SeekFrom::Current(1)), None);
    assert_eq!(device.seek(SeekFrom::Current(i64::MIN)), Some(u64::MAX - (1 << 63)));
    let mut huge = OpenDevice::new(u64::MAX);
    assert_eq!(huge.seek(SeekFrom::End(1)), None);
    assert_eq!(huge.seek(SeekFrom::End(i64::MIN)), Some((1 << 63) - 1));
}

#[test]
fn device_read_moves_the_position_on() {
    let mut device = OpenDevice::new(4096);
    assert_eq!(device.read(512), Ok(512));
    assert_eq!(device.read(0), Ok(0));
    assert_eq!(device.read(100), Ok(100));
    assert_eq!(device.read_pos(), 612);
    assert_eq!(device.read(-5), Err(BioError::ReadError { code: -5 }));
    assert_eq!(device.read(i64::MIN), Err(BioError::ReadError { code: i64::MIN }));
    assert_eq!(device.read_pos(), 612);
    assert_eq!(device.seek(SeekFrom::Start(u64::MAX - 1)), Some(u64::MAX - 1));
    assert_eq!(device.read(2), Err(BioError::UnexpectedEOF));
    assert_eq!(device.read(1), Ok(1));
    assert_eq!(device.read_pos(), u64::MAX);
}

use nuki::object_pool::{ForwardPool, PoolObject, PoolObjectBase, PoolObjectTypeId};

#[derive(Debug, Default)]
struct ObjectFoo {
    base: PoolObjectBase,
    val: u64,
}

#[derive(Debug, Default)]
struct ObjectBar {
    base: PoolObjectBase,
    vals: [u64; 8],
}

enum ObjectType {
    Unknown,
    Foo,
    Bar,
    FooBar,
}

fn object_type(val: usize) -> ObjectType {
    match val {
        1 => ObjectType::Foo,
        2 => ObjectType::Bar,
        3 => ObjectType::FooBar,
        _ => ObjectType::Unknown,
    }
}

fn type_number(t: ObjectType) -> usize {
    match t {
        ObjectType::Unknown => 0,
        ObjectType::Foo => 1,
        ObjectType::Bar => 2,
        ObjectType::FooBar => 3,
    }
}

impl PoolObjectTypeId for ObjectFoo {
    fn pool_object_type_id(&self) -> usize {
        type_number(ObjectType::Foo)
    }
}

impl PoolObjectTypeId for ObjectBar {
    fn pool_object_type_id(&self) -> usize {
        type_number(ObjectType::Bar)
    }
}

struct Plain;

impl PoolObjectTypeId for Plain {}

#[test]
fn test_forward_pool() {
    let mut pool = ForwardPool::with_capacity(1024);
    let foo = ObjectFoo::default();
    let bar = ObjectBar::default();
    assert_eq!(foo.val, 0);
    assert_eq!(bar.vals, [0u64; 8]);
    assert_eq!(foo.base, bar.base);

    loop {
        match pool.allocate(foo.pool_object_type_id(), std::mem::size_of::<ObjectFoo>()) {
            Some(obj) => {
                assert_eq!(obj.pool_object_type(), type_number(ObjectType::Foo));
                assert_eq!(obj.pool_object_size(), std::mem::size_of::<ObjectFoo>());
            }
            None => {
                break;
            }
        }
        match pool.allocate(bar.pool_object_type_id(), std::mem::size_of::<ObjectBar>()) {
            Some(obj) => {
                assert_eq!(obj.pool_object_type(), type_number(ObjectType::Bar));
                assert_eq!(obj.pool_object_size(), std::mem::size_of::<ObjectBar>());
            }
            None => {
                break;
            }
        }
    }

    let mut seen = 0usize;
    let mut walk = pool.iter();
    while let Some(o) = walk.next() {
        assert!(o.pool_object_type() != type_number(ObjectType::Unknown));
        assert!(o.pool_object_size() > 0);
        match object_type(o.pool_object_type()) {
            ObjectType::Foo => {
                let t = o.pool_object_base();
                assert_eq!(o.pool_object_type(), t.pool_object_type());
                assert_eq!(o.pool_object_size(), t.pool_object_size());
                assert_eq!(o.pool_object_size(), std::mem::size_of::<ObjectFoo>());
            }
            _ => {
                println!("Unsupported {} yet", o.pool_object_type());
            }
        }
        seen += 1;
    }
    // 11 pairs of 16 + 72 bytes take 968 bytes; a twelfth object of 16 bytes
    // fits, the next of 72 bytes does not.
    assert_eq!(seen, 23);
    assert_eq!(pool.used(), 984);
    assert_eq!(pool.space(), 40);
}

#[test]
fn pool_accounts_for_every_byte() {
    let mut pool = ForwardPool::with_capacity(10);
    assert_eq!(pool.space(), 10);
    assert_eq!(pool.used(), 0);
    assert!(pool.iter().next().is_none());
    assert!(pool.allocate(7, 4).is_some());
    assert_eq!((pool.used(), pool.space()), (4, 6));
    assert!(pool.allocate(8, 7).is_none());
    assert_eq!((pool.used(), pool.space()), (4, 6));
    assert!(pool.allocate(9, 6).is_some());
    assert_eq!((pool.used(), pool.space()), (10, 0));
    assert!(pool.allocate(9, 4).is_none());
    let mut walk = pool.iter();
    let a = *walk.next().unwrap();
    let b = *walk.next().unwrap();
    assert!(walk.next().is_none());
    assert!(walk.next().is_none());
    assert_eq!((a.pool_object_type(), a.pool_object_size()), (7, 4));
    assert_eq!((b.pool_object_type(), b.pool_object_size()), (9, 6));
    pool.clear();
    assert_eq!((pool.used(), pool.space()), (0, 10));
    assert!(pool.iter().next().is_none());
    assert!(pool.allocate(1, 10).is_some());
}

#[test]
fn headers_keep_the_low_sixteen_bits() {
    let mut h = PoolObjectBase::default();
    assert_eq!((h.pool_object_type(), h.pool_object_size()), (0, 0));
    h.set_pool_object_type(0x1_2345);
    h.set_pool_object_size(0x7_0010);
    assert_eq!(h.pool_object_type(), 0x2345);
    assert_eq!(h.pool_object_size(), 0x10);
    h.pool_object_base_mut().set_pool_object_size(65535);
    assert_eq!(h.pool_object_base().pool_object_size(), 65535);
    assert_eq!(h.pool_object_type(), 0x2345);
    let mut pool = ForwardPool::with_capacity(100);
    let got = pool.allocate(0x3_0001, 8).unwrap();
    assert_eq!(got.pool_object_type(), 1);
    assert_eq!(Plain.pool_object_type_id(), 0);
}

#[test]
fn a_mutable_walk_changes_headers_in_place() {
    let mut pool = ForwardPool::with_capacity(64);
    pool.allocate(1, 8);
    pool.allocate(2, 16);
    pool.allocate(3, 8);
    {
        let mut walk = pool.iter_mut();
        while let Some(h) = walk.next() {
            let t = h.pool_object_type();
            h.set_pool_object_type(t + 10);
        }
    }
    let mut types = Vec::new();
    let mut sizes = Vec::new();
    let mut walk = pool.iter();
    while let Some(h) = walk.next() {
        types.push(h.pool_object_type());
        sizes.push(h.pool_object_size());
    }
    assert_eq!(types, vec![11, 12, 13]);
    assert_eq!(sizes, vec![8, 16, 8]);
    assert_eq!(pool.used(), 32);
}

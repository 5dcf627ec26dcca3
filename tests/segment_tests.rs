use segment_store::bitset::BitSet;
use segment_store::delete_cursor::DeleteCursor;
use segment_store::directory::{Directory, OpenReadError, OpenWriteError};
use segment_store::index::Index;
use segment_store::schema::Schema;
use segment_store::segment::{Segment, SegmentDirectory};
use segment_store::segment_component::SegmentComponent;
use segment_store::segment_entry::{PersistError, SegmentEntry};
use segment_store::segment_id::SegmentId;
use segment_store::segment_meta::SegmentMeta;
use segment_store::segment_serializer::SegmentSerializer;

const ID_A: u128 = 0x0123456789abcdef0011223344556677;

fn schema() -> Schema {
    Schema::new(vec!["title".to_string(), "body".to_string()])
}

fn write_component(segment: &mut Segment, component: SegmentComponent, bytes: &[u8]) {
    let mut w = segment.open_write(component).expect("component is new");
    w.write_all(bytes);
    segment.close_write(w);
}

fn read_component(segment: &Segment, component: SegmentComponent) -> Vec<u8> {
    segment.open_read(component).expect("component exists").as_slice().to_vec()
}

#[test]
fn uuid_string_is_32_lower_hex_digits() {
    let id = SegmentId::from_u128(ID_A);
    assert_eq!(id.uuid_string(), "0123456789abcdef0011223344556677");
    assert_eq!(SegmentId::from_u128(255).uuid_string(), "000000000000000000000000000000ff");
}

#[test]
fn relative_path_joins_id_and_suffix() {
    let segment = Segment::new_unpersisted(SegmentMeta::new(SegmentId::from_u128(ID_A), 0), schema());
    assert_eq!(segment.relative_path(SegmentComponent::Postings), "0123456789abcdef0011223344556677.idx");
    assert_eq!(segment.relative_path(SegmentComponent::Store), "0123456789abcdef0011223344556677.store");
    assert_eq!(
        segment.relative_path(SegmentComponent::FieldNorms),
        "0123456789abcdef0011223344556677.fieldnorm"
    );
    assert_eq!(segment.relative_path(SegmentComponent::Delete), "0123456789abcdef0011223344556677.del");
}

#[test]
fn relative_path_depends_on_id_and_component_only() {
    let id = SegmentId::from_u128(ID_A);
    let a = Segment::new_unpersisted(SegmentMeta::new(id, 0), schema());
    let b = Segment::new_unpersisted(SegmentMeta::new(id, 0), schema())
        .with_max_doc(10)
        .with_delete_meta(4, 7);
    for c in SegmentComponent::iterator() {
        assert_eq!(a.relative_path(c), a.relative_path(c));
        assert_eq!(a.relative_path(c), b.relative_path(c));
        assert_eq!(a.relative_path(c), a.meta().relative_path(c));
    }
}

#[test]
fn scenario_fresh_segment_write_then_read() {
    let meta = SegmentMeta::new(SegmentId::from_u128(0xA), 0);
    let mut s1 = Segment::new_unpersisted(meta, schema());
    for c in SegmentComponent::iterator() {
        match s1.open_read(c) {
            Err(OpenReadError::FileDoesNotExist(p)) => assert_eq!(p, s1.relative_path(c)),
            Ok(_) => panic!("a fresh segment has no files"),
        }
    }
    let bytes: Vec<u8> = (0..100u32).map(|i| (i * 7 % 256) as u8).collect();
    write_component(&mut s1, SegmentComponent::Store, &bytes);
    let s2 = s1.with_max_doc(100);
    assert_eq!(s2.meta().max_doc(), 100);
    assert_eq!(read_component(&s2, SegmentComponent::Store), bytes);
}

#[test]
fn scenario_delete_cursor_never_goes_back() {
    let meta = SegmentMeta::new(SegmentId::from_u128(3), 10);
    let mut entry = SegmentEntry::new(meta, DeleteCursor::new(5), None, SegmentDirectory::Volatile(Directory::new()));
    assert_eq!(entry.delete_cursor().position(), 5);
    entry.delete_cursor().skip_to(9);
    assert_eq!(entry.delete_cursor().position(), 9);
    entry.delete_cursor().skip_to(6);
    assert!(entry.delete_cursor().position() >= 9);
    entry.delete_cursor().advance();
    assert_eq!(entry.delete_cursor().position(), 10);
}

#[test]
fn scenario_delete_meta_records_count_and_opstamp() {
    let mut s1 = Segment::new_unpersisted(SegmentMeta::new(SegmentId::from_u128(0xA), 0), schema());
    write_component(&mut s1, SegmentComponent::Postings, &[9, 8, 7]);
    let s2 = s1.with_max_doc(100);
    let s3 = s2.with_delete_meta(3, 42);
    assert_eq!(s3.meta().num_deleted_docs(), 3);
    assert_eq!(s3.meta().delete_opstamp(), Some(42));
    assert_eq!(s3.meta().num_docs(), 97);
    assert!(s3.meta().has_deletes());
    assert_eq!(read_component(&s3, SegmentComponent::Postings), vec![9, 8, 7]);
}

#[test]
fn copy_is_independent_of_source() {
    let mut s = Segment::new_unpersisted(SegmentMeta::new(SegmentId::from_u128(1), 0), schema());
    write_component(&mut s, SegmentComponent::Terms, &[1, 2]);
    let mut copy = s.clone().with_max_doc(5);
    write_component(&mut copy, SegmentComponent::Store, &[3]);
    assert_eq!(s.meta().max_doc(), 0);
    assert!(s.open_read(SegmentComponent::Store).is_err());
    assert_eq!(read_component(&copy, SegmentComponent::Store), vec![3]);
    assert_eq!(read_component(&s, SegmentComponent::Terms), vec![1, 2]);
    assert_eq!(read_component(&copy, SegmentComponent::Terms), vec![1, 2]);
}

#[test]
fn write_then_read_returns_same_bytes() {
    let mut s = Segment::new_unpersisted(SegmentMeta::new(SegmentId::from_u128(2), 0), schema());
    let mut w = s.open_write(SegmentComponent::FastFields).unwrap();
    w.write_all(&[1, 2, 3]);
    w.write_all(&[]);
    w.write_all(&[4]);
    assert_eq!(w.path(), &s.relative_path(SegmentComponent::FastFields));
    assert_eq!(read_component(&s, SegmentComponent::FastFields), Vec::<u8>::new());
    s.close_write(w);
    let source = s.open_read(SegmentComponent::FastFields).unwrap();
    assert_eq!(source.len(), 4);
    assert_eq!(source.as_slice(), &[1, 2, 3, 4]);
}

#[test]
fn second_writer_is_refused() {
    let mut s = Segment::new_unpersisted(SegmentMeta::new(SegmentId::from_u128(2), 0), schema());
    let w = s.open_write(SegmentComponent::Positions).unwrap();
    match s.open_write(SegmentComponent::Positions) {
        Err(OpenWriteError::FileAlreadyExists(p)) => assert_eq!(p, s.relative_path(SegmentComponent::Positions)),
        Ok(_) => panic!("the component is already held"),
    }
    s.close_write(w);
    assert!(s.open_write(SegmentComponent::Positions).is_err());
    assert!(s.open_write(SegmentComponent::PositionsSkip).is_ok());
}

#[test]
fn bitset_rejects_documents_out_of_range() {
    let mut b = BitSet::with_max_value(10);
    assert_eq!(b.max_value(), 10);
    assert_eq!(b.len(), 0);
    assert!(b.insert(3));
    assert!(b.insert(9));
    assert!(b.insert(3));
    assert!(!b.insert(10));
    assert!(!b.insert(u32::MAX));
    assert_eq!(b.len(), 2);
    assert!(b.contains(3));
    assert!(b.contains(9));
    assert!(!b.contains(4));
    assert!(!b.contains(10));
    assert_eq!(b.max_value(), 10);
}

#[test]
fn empty_bitset() {
    let mut b = BitSet::with_max_value(0);
    assert_eq!(b.max_value(), 0);
    assert!(!b.insert(0));
    assert_eq!(b.len(), 0);
}

#[test]
fn entry_bitset_matches_max_doc() {
    let meta = SegmentMeta::new(SegmentId::from_u128(4), 8);
    let mut bits = BitSet::with_max_value(8);
    assert!(bits.insert(2));
    let mut entry = SegmentEntry::new(meta, DeleteCursor::new(0), Some(bits), SegmentDirectory::Volatile(Directory::new()));
    let b = entry.delete_bitset().unwrap();
    assert_eq!(b.max_value(), entry.meta().max_doc());
    assert!(b.contains(2));
    entry.set_meta(entry.meta().with_delete_meta(1, 3));
    assert_eq!(entry.meta().num_deleted_docs(), 1);
    assert_eq!(entry.segment_id(), SegmentId::from_u128(4));
    let plain = SegmentEntry::new(meta, DeleteCursor::new(0), None, SegmentDirectory::Volatile(Directory::new()));
    assert!(plain.delete_bitset().is_none());
}

#[test]
fn persist_copies_files_then_switches() {
    let mut s = Segment::new_unpersisted(SegmentMeta::new(SegmentId::from_u128(5), 0), schema());
    write_component(&mut s, SegmentComponent::Store, &[1, 1]);
    write_component(&mut s, SegmentComponent::Terms, &[2]);
    let s = s.with_max_doc(2);
    let store_path = s.relative_path(SegmentComponent::Store);
    let terms_path = s.relative_path(SegmentComponent::Terms);
    let mut entry = SegmentEntry::new(*s.meta(), DeleteCursor::new(0), None, s.directory().clone());

    let mut durable = Directory::new();
    let other = "other.idx".to_string();
    durable.atomic_write(&other, vec![7]);
    durable.atomic_write(&store_path, vec![0]);
    assert_eq!(entry.persist(durable), Ok(()));
    match entry.directory() {
        SegmentDirectory::Persisted(d) => {
            assert_eq!(d.open_read(&store_path).unwrap().as_slice(), &[1, 1]);
            assert_eq!(d.open_read(&terms_path).unwrap().as_slice(), &[2]);
            assert_eq!(d.open_read(&other).unwrap().as_slice(), &[7]);
        }
        SegmentDirectory::Volatile(_) => panic!("the entry must be persisted"),
    }
    assert_eq!(entry.persist(Directory::new()), Err(PersistError::AlreadyPersisted));
    assert!(!entry.directory().is_volatile());
}

#[test]
fn segment_for_index_is_persisted() {
    let mut durable = Directory::new();
    let id = SegmentId::from_u128(6);
    let meta = SegmentMeta::new(id, 3);
    durable.atomic_write(&meta.relative_path(SegmentComponent::Postings), vec![5, 6]);
    let index = Index::create(durable, schema());
    assert_eq!(index.schema().num_fields(), 2);
    assert!(index.directory().contains(&meta.relative_path(SegmentComponent::Postings)));
    let segment = Segment::for_index(index, meta);
    assert!(!segment.directory().is_volatile());
    assert_eq!(segment.id(), id);
    assert_eq!(segment.meta().max_doc(), 3);
    assert_eq!(read_component(&segment, SegmentComponent::Postings), vec![5, 6]);
    assert_eq!(segment.schema().field_name(1), "body");
}

#[test]
fn schema_is_shared() {
    let s = schema();
    let t = s.share();
    assert_eq!(t.num_fields(), 2);
    assert_eq!(t.field_name(0), "title");
    let segment = Segment::new_unpersisted(SegmentMeta::new(SegmentId::from_u128(1), 0), s);
    assert_eq!(segment.schema().field_name(0), "title");
    assert_eq!(segment.schema().field_name(1), "body");
}

#[test]
fn directory_overwrite_and_missing() {
    let mut d = Directory::new();
    let p = "a.del".to_string();
    assert!(!d.contains(&p));
    assert!(matches!(d.open_read(&p), Err(OpenReadError::FileDoesNotExist(_))));
    d.atomic_write(&p, vec![1]);
    d.atomic_write(&p, vec![2, 3]);
    assert_eq!(d.open_read(&p).unwrap().as_slice(), &[2, 3]);
    let copy = d.clone();
    d.atomic_write(&p, vec![4]);
    assert_eq!(copy.open_read(&p).unwrap().as_slice(), &[2, 3]);
}

#[test]
fn serializer_writes_components() {
    let segment = Segment::new_unpersisted(SegmentMeta::new(SegmentId::from_u128(8), 0), schema());
    let mut serializer = SegmentSerializer::for_segment(segment);
    assert!(serializer.write_component(SegmentComponent::Postings, &[1, 2]).is_ok());
    assert!(serializer.write_component(SegmentComponent::Postings, &[3]).is_err());
    let segment = serializer.into_segment();
    assert_eq!(read_component(&segment, SegmentComponent::Postings), vec![1, 2]);
}

#[test]
fn directory_from_is_persisted() {
    let d: SegmentDirectory = Directory::new().into();
    assert!(!d.is_volatile());
    assert!(SegmentDirectory::Volatile(Directory::new()).is_volatile());
}

#[test]
fn meta_without_deletes() {
    let meta = SegmentMeta::new(SegmentId::from_u128(9), 12);
    assert_eq!(meta.num_deleted_docs(), 0);
    assert_eq!(meta.num_docs(), 12);
    assert_eq!(meta.delete_opstamp(), None);
    assert!(!meta.has_deletes());
    let meta = meta.with_delete_meta(12, 0);
    assert_eq!(meta.num_docs(), 0);
    assert_eq!(meta.delete_opstamp(), Some(0));
}

#[test]
fn extensions_are_fixed() {
    assert_eq!(SegmentComponent::Postings.extension(), ".idx");
    assert_eq!(SegmentComponent::Positions.extension(), ".pos");
    assert_eq!(SegmentComponent::PositionsSkip.extension(), ".posidx");
    assert_eq!(SegmentComponent::FastFields.extension(), ".fast");
    assert_eq!(SegmentComponent::FieldNorms.extension(), ".fieldnorm");
    assert_eq!(SegmentComponent::Terms.extension(), ".term");
    assert_eq!(SegmentComponent::Store.extension(), ".store");
    assert_eq!(SegmentComponent::Delete.extension(), ".del");
    assert_eq!(SegmentComponent::iterator().len(), 8);
}

#[test]
fn paths_differ_across_ids_and_components() {
    let a = Segment::new_unpersisted(SegmentMeta::new(SegmentId::from_u128(1), 0), schema());
    let b = Segment::new_unpersisted(SegmentMeta::new(SegmentId::from_u128(16), 0), schema());
    let mut seen: Vec<String> = Vec::new();
    for s in [&a, &b] {
        for c in SegmentComponent::iterator() {
            let p = s.relative_path(c);
            assert!(!seen.contains(&p));
            seen.push(p);
        }
    }
    assert_eq!(seen.len(), 16);
}

#[test]
fn uuid_string_of_extremes() {
    assert_eq!(SegmentId::from_u128(0).uuid_string(), "00000000000000000000000000000000");
    assert_eq!(SegmentId::from_u128(u128::MAX).uuid_string(), "ffffffffffffffffffffffffffffffff");
}

//! Attachments, categories, facets, publication and hydration.

use dam_db::assets::{parse_provenance, parse_rights, set_published, tier_of, Word};
use dam_db::attachments::{
    attach, attachment, attachments, check_visible, flatten, AttachmentRefusal, AttachmentRow, Kind, Standing,
};
use dam_db::categories::{
    self, check_path, depth_of, new_path, node, require_tree, tree, tree_with_counts, worklist, CategoryRefusal,
    CategoryRow, NewCategory, Parent,
};
use dam_db::facets::{finish, finish_taxonomy, Counted, Tallied};
use dam_db::Error;

fn word<T>(raw: &str, read: Option<T>) -> Word<T> {
    Word { raw: raw.to_owned(), read }
}

#[test]
fn publishing_again_keeps_the_first_instant() {
    assert_eq!(set_published(Some(None), Some(5)), Some(Some(5)));
    assert_eq!(set_published(Some(Some(5)), Some(9)), None);
    assert_eq!(set_published(Some(Some(5)), None), Some(None));
    assert_eq!(set_published(Some(None), None), Some(None));
    assert_eq!(set_published(None, Some(5)), None);
    assert_eq!(set_published(None, None), None);
}

#[test]
fn a_tier_is_read_from_what_is_stored() {
    assert_eq!(tier_of(None::<Word<u8>>, None::<Word<char>>, 0, 'n'), Ok((0, 'n')));
    assert_eq!(tier_of(Some(word("GLACIER", Some(7))), Some(word("available", Some('a'))), 0, 'n'), Ok((7, 'a')));
    assert_eq!(tier_of(Some(word("GLACIER", Some(7))), None, 0, 'n'), Ok((7, 'n')));
    assert_eq!(
        tier_of(Some(word("ICE", None::<u8>)), Some(word("soon", None::<char>)), 0, 'n'),
        Err(Error::Inconsistent("object_placements.storage_class holds \"ICE\"".to_owned()))
    );
    assert_eq!(
        tier_of(None::<Word<u8>>, Some(word("soon", None::<char>)), 0, 'n'),
        Err(Error::Inconsistent("object_placements.restore_state holds \"soon\"".to_owned()))
    );
    assert_eq!(parse_rights(word("cleared", Some(1))), Ok(1));
    assert_eq!(
        parse_rights(word("maybe", None::<u8>)),
        Err(Error::Inconsistent("assets.rights_state holds \"maybe\"".to_owned()))
    );
    assert_eq!(
        parse_provenance(word("maybe", None::<u8>)),
        Err(Error::Inconsistent("assets.provenance_state holds \"maybe\"".to_owned()))
    );
}

fn standing(id: u128, attached_to: Option<u128>, is_current: bool) -> Standing {
    Standing { id, attached_to, is_current }
}

#[test]
fn paperwork_is_attached_once_and_one_level_deep() {
    let both = vec![1, 2];
    let plain = vec![standing(2, None, true), standing(1, None, true)];
    assert!(attach(1, 2, Kind::Release, &both, &plain).is_ok());
    // Attaching again to the same parent is no mistake.
    assert!(attach(1, 2, Kind::Release, &both, &vec![standing(1, None, true), standing(2, Some(1), true)]).is_ok());
    assert_eq!(attach(1, 2, Kind::Release, &vec![2], &plain), Err(AttachmentRefusal::UnknownAsset(1)));
    assert_eq!(attach(1, 2, Kind::Release, &vec![1], &plain), Err(AttachmentRefusal::UnknownAsset(2)));
    assert_eq!(attach(1, 2, Kind::Release, &both, &vec![standing(2, None, true)]), Err(AttachmentRefusal::UnknownAsset(1)));
    assert_eq!(attach(1, 2, Kind::Release, &both, &vec![standing(1, None, true)]), Err(AttachmentRefusal::UnknownAsset(2)));
    assert_eq!(
        attach(1, 2, Kind::Release, &both, &vec![standing(1, Some(9), true), standing(2, None, true)]),
        Err(AttachmentRefusal::ParentIsAttachment)
    );
    assert_eq!(
        attach(1, 2, Kind::Release, &both, &vec![standing(1, None, true), standing(2, Some(9), false)]),
        Err(AttachmentRefusal::AlreadyAttached(2))
    );
    assert_eq!(
        attach(1, 2, Kind::Release, &both, &vec![standing(1, None, true), standing(2, None, false)]),
        Err(AttachmentRefusal::IsAVersion(2))
    );
    assert_eq!(check_visible(3, &vec![]), Err(AttachmentRefusal::UnknownAsset(3)));
    assert!(check_visible(3, &vec![3]).is_ok());
}

#[test]
fn attachment_refusals_say_which_asset() {
    let id = "00000000-0000-0000-0000-00000000000f";
    assert_eq!(AttachmentRefusal::UnknownAsset(15).message(), format!("no asset {id}"));
    assert_eq!(
        AttachmentRefusal::AlreadyAttached(15).message(),
        format!("asset {id} is already attached to something else")
    );
    assert_eq!(AttachmentRefusal::ParentIsAttachment.message(), "paperwork cannot have paperwork of its own");
    assert_eq!(
        AttachmentRefusal::IsAVersion(15).message(),
        format!("asset {id} is a superseded version, not a document")
    );
}

fn row(attached_to: Option<u128>, kind: Option<&str>) -> AttachmentRow {
    AttachmentRow {
        asset_id: 10,
        attached_to,
        kind: kind.map(str::to_owned),
        filename: "release.pdf".to_owned(),
        mime: "application/pdf".to_owned(),
        bytes: 12,
        uploaded_by: None,
        created_at: 3,
    }
}

#[test]
fn an_attachment_row_has_a_parent_and_a_kind() {
    let read = attachment(row(Some(1), Some("release"))).unwrap();
    assert_eq!((read.asset_id, read.attached_to, read.kind, read.bytes), (10, 1, Kind::Release, 12));
    assert_eq!(
        attachment(row(None, None)),
        Err(Error::Migrate("attachment 00000000-0000-0000-0000-00000000000a has no parent".to_owned()))
    );
    for kind in [None, Some("licence "), Some("Release")] {
        assert_eq!(
            attachment(row(Some(1), kind)),
            Err(Error::Migrate("attachment 00000000-0000-0000-0000-00000000000a has no kind".to_owned()))
        );
    }
    assert_eq!(attachments(vec![row(Some(1), Some("other")), row(Some(2), Some("permit"))]).unwrap().len(), 2);
    assert!(attachments(vec![row(Some(1), Some("other")), row(None, Some("permit"))]).is_err());
    assert_eq!(flatten(&vec![Some(3), None, Some(1)]), vec![3, 1]);
    for kind in [Kind::Release, Kind::Licence, Kind::Contract, Kind::Permit, Kind::Other] {
        assert_eq!(Kind::parse(kind.as_str()), Some(kind));
    }
    assert_eq!(Kind::parse("invoice"), None);
}

fn category(path: &str, id: u128) -> CategoryRow {
    CategoryRow {
        id,
        parent_id: None,
        path: path.to_owned(),
        slug: "s".to_owned(),
        label: "L".to_owned(),
        deprecated_at: None,
    }
}

#[test]
fn depth_is_read_from_the_path() {
    assert_eq!(depth_of("exterior"), 0);
    assert_eq!(depth_of("exterior.yellow"), 1);
    assert_eq!(depth_of("a.b.c.d"), 3);
    let nodes = tree(vec![
        category("exterior", 1),
        CategoryRow { deprecated_at: Some(0), ..category("exterior.yellow", 2) },
    ]);
    assert_eq!((nodes[0].depth, nodes[0].retired), (0, false));
    assert_eq!((nodes[1].depth, nodes[1].retired), (1, true));
    assert_eq!(node(category("exterior", 1)), nodes[0]);
    let counted = tree_with_counts(nodes, &vec![(2, 5), (9, 1), (2, 7)]);
    assert_eq!((counted[0].assets, counted[1].assets), (0, 5));
    assert_eq!((counted[1].path.as_str(), counted[1].retired), ("exterior.yellow", true));
}

#[test]
fn a_category_path_is_its_parents_and_its_slug() {
    let mut spec = NewCategory {
        taxonomy_id: 1,
        parent_id: None,
        slug: "yellow".to_owned(),
        label: "Yellow".to_owned(),
    };
    assert_eq!(new_path(&spec, None), Ok("yellow".to_owned()));
    spec.parent_id = Some(7);
    let parent = |taxonomy_id: u128| Some(Parent { path: "exterior".to_owned(), taxonomy_id });
    assert_eq!(new_path(&spec, parent(1)), Ok("exterior.yellow".to_owned()));
    assert_eq!(new_path(&spec, parent(2)), Err(CategoryRefusal::UnknownCategory(7)));
    assert_eq!(new_path(&spec, None), Err(CategoryRefusal::UnknownCategory(7)));
    assert_eq!(check_path("a.b".to_owned(), false), Ok("a.b".to_owned()));
    let clash = check_path("a.b".to_owned(), true).unwrap_err();
    assert_eq!(clash.message(), "a category `a.b` already exists under that parent");
}

#[test]
fn only_a_live_category_of_a_category_tree_takes_assets() {
    assert!(require_tree(3, &Some("category".to_owned())).is_ok());
    assert_eq!(require_tree(3, &None), Err(CategoryRefusal::NotACategoryTree(3)));
    assert_eq!(
        require_tree(3, &Some("vocabulary".to_owned())).unwrap_err().message(),
        "taxonomy 00000000-0000-0000-0000-000000000003 is not a category tree"
    );
    assert!(categories::file(9, 4, Some(None), None).is_ok());
    assert_eq!(
        categories::file(9, 4, Some(Some(0)), None).unwrap_err().message(),
        "category 00000000-0000-0000-0000-000000000004 is retired and cannot take new assets"
    );
    assert_eq!(
        categories::file(9, 4, None, None).unwrap_err().message(),
        "no category 00000000-0000-0000-0000-000000000004 exists"
    );
}

#[test]
fn the_count_and_the_sample_come_from_one_list() {
    assert_eq!(worklist(vec![1, 2, 3], 2), (3, vec![1, 2]));
    assert_eq!(worklist(vec![1, 2, 3], -1), (3, vec![]));
    assert_eq!(worklist(vec![1, 2, 3], 0), (3, vec![]));
    assert_eq!(worklist(vec![1, 2, 3], i64::MAX), (3, vec![1, 2, 3]));
}

fn counted(value: &str, count: i64) -> Counted {
    Counted { id: None, value: value.to_owned(), count }
}

#[test]
fn a_facet_says_when_it_dropped_buckets() {
    let facet = finish("brand".to_owned(), vec![counted("a", 3), counted("b", 2), counted("c", 1)], 2);
    assert_eq!(facet.key, "brand");
    assert!(facet.truncated);
    let shown: Vec<(&str, i64)> = facet.buckets.iter().map(|b| (b.value.as_str(), b.count)).collect();
    assert_eq!(shown, vec![("a", 3), ("b", 2)]);
    let exact = finish("brand".to_owned(), vec![counted("a", 3), counted("b", 0)], 2);
    assert!(!exact.truncated);
    assert_eq!(exact.buckets.len(), 1);
    // A limit below one is one, and one above a hundred is a hundred.
    assert_eq!(finish("k".to_owned(), vec![counted("a", 1), counted("b", 1)], -4).buckets.len(), 1);
    let many: Vec<Counted> = (0..150).map(|n| counted(&n.to_string(), 1)).collect();
    let wide = finish("k".to_owned(), many, 1000);
    assert!(wide.truncated);
    assert_eq!(wide.buckets.len(), 100);
}

#[test]
fn a_taxonomy_bucket_carries_its_term() {
    let row = |id: &str, label: &str, count: i64| Tallied { id: id.to_owned(), label: label.to_owned(), count };
    let facet = finish_taxonomy(
        0xab,
        vec![
            row("00000000-0000-0000-0000-0000000000ff", "Outdoor", 4),
            row("00000000-0000-0000-0000-000000000001", "Empty", 0),
            row("not an id", "Odd", 1),
        ],
        10,
    );
    assert_eq!(facet.key, "00000000-0000-0000-0000-0000000000ab");
    let shown: Vec<(&str, Option<u128>)> = facet.buckets.iter().map(|b| (b.value.as_str(), b.id)).collect();
    assert_eq!(shown, vec![("Outdoor", Some(0xff)), ("Odd", None)]);
}

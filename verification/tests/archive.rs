use klt::archive::{archive_order, name_le};

fn names(texts: &[&str]) -> Vec<Vec<u8>> {
    texts.iter().map(|text| text.as_bytes().to_vec()).collect()
}

#[test]
fn entries_are_archived_by_name() {
    let found = names(&["src/main.rs", "b", "src", "a.txt", "a", "a/z", "Z", "src/lib.rs"]);
    assert_eq!(
        archive_order(found),
        names(&["Z", "a", "a.txt", "a/z", "b", "src", "src/lib.rs", "src/main.rs"])
    );
}

#[test]
fn archive_order_does_not_depend_on_the_order_found() {
    let listing = ["usr", "usr/bin", "usr/bin/app", "etc", "etc/app.toml", "usr/lib", "app"];
    let expected = archive_order(names(&listing));
    let mut indices: Vec<usize> = (0..listing.len()).collect();
    let mut arrangements = 0;
    permute(&mut indices, 0, &mut |order| {
        let found: Vec<Vec<u8>> = order.iter().map(|&i| listing[i].as_bytes().to_vec()).collect();
        assert_eq!(archive_order(found), expected);
        arrangements += 1;
    });
    assert_eq!(arrangements, 5040);
}

fn permute(items: &mut Vec<usize>, from: usize, visit: &mut dyn FnMut(&[usize])) {
    if from == items.len() {
        visit(items);
        return;
    }
    for i in from..items.len() {
        items.swap(from, i);
        permute(items, from + 1, visit);
        items.swap(from, i);
    }
}

#[test]
fn archive_order_keeps_names_that_occur_twice() {
    assert_eq!(archive_order(names(&["b", "a", "b", ""])), names(&["", "a", "b", "b"]));
    assert_eq!(archive_order(Vec::new()), Vec::<Vec<u8>>::new());
}

#[test]
fn archive_order_agrees_with_the_order_of_byte_strings() {
    let mut found: Vec<Vec<u8>> = Vec::new();
    let alphabet = [0u8, b'/', b'a', 0xff];
    for a in alphabet {
        found.push(vec![a]);
        for b in alphabet {
            found.push(vec![b, a]);
            for c in alphabet {
                found.push(vec![c, a, b]);
            }
        }
    }
    found.reverse();
    let mut expected = found.clone();
    expected.sort();
    assert_eq!(archive_order(found.clone()), expected);
    for a in &found {
        for b in &found {
            assert_eq!(name_le(a, b), a <= b);
        }
    }
}

#[test]
fn directory_stands_before_what_it_holds() {
    assert!(name_le(&b"dir".to_vec(), &b"dir/file".to_vec()));
    assert!(!name_le(&b"dir/file".to_vec(), &b"dir".to_vec()));
    assert!(name_le(&b"".to_vec(), &b"".to_vec()));
    assert!(name_le(&b"same".to_vec(), &b"same".to_vec()));
}

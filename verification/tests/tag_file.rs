use rand::Rng;
use tag_changer::ID3v1;

#[test]
fn basic_write() {
    let mut test_file: Vec<u8> = vec![];
    let title = b"testsong";
    let artist = b"testartist";
    let album = b"testalbum";
    let year = b"2024";
    let comment = b"testcomment";

    let tags = ID3v1::new(
        title[0..].into(),
        artist[0..].into(),
        album[0..].into(),
        year[0..].into(),
        comment[0..].into(),
        5,
    );
    println!("{:?}", tags);
    tags.write(&mut test_file);

    println!("{:#?}", test_file);
    assert_eq!(test_file.len(), 128);
    assert_eq!(&test_file[0..=2], b"TAG");
    assert_eq!(test_file[3..3 + title.len()], title[0..]);
    assert_eq!(test_file[3 + title.len()..=32], vec!(0; 30 - title.len()));
    assert_eq!(test_file[33..33 + artist.len()], artist[0..]);
    assert_eq!(
        test_file[33 + artist.len()..=62],
        vec!(0; 30 - artist.len())
    );
    assert_eq!(test_file[63..63 + album.len()], album[0..]);
    assert_eq!(test_file[63 + album.len()..=92], vec!(0; 30 - album.len()));
    assert_eq!(test_file[93..93 + year.len()], year[0..]);
    assert_eq!(test_file[93 + year.len()..=96], vec!(0; 4 - year.len()));
    assert_eq!(test_file[97..97 + comment.len()], comment[0..]);
    assert_eq!(
        test_file[97 + comment.len()..=126],
        vec!(0; 30 - comment.len())
    );
    assert_eq!(test_file[127], 5);
}

#[test]
fn get_contents_too_short() {
    let test_file: Vec<u8> = vec![1; 20];

    let contents = ID3v1::get_contents_without_tag(&test_file);
    assert_eq!(test_file, vec![1; 20]);
    assert_eq!(contents, vec![1; 20]);
}

#[test]
fn get_contents_no_tag() {
    let test_file: Vec<u8> = vec![1; 300];

    let contents = ID3v1::get_contents_without_tag(&test_file);
    assert_eq!(test_file, vec![1; 300]);
    assert_eq!(contents, vec![1; 300]);
}

#[test]
fn get_contents() {
    let mut rng = rand::thread_rng();

    let mut test_file: Vec<u8> = Vec::with_capacity(130);

    test_file.push(1);
    test_file.push(2);
    test_file.push(b'T');
    test_file.push(b'A');
    test_file.push(b'G');
    for _ in 0..125 {
        test_file.push(rng.gen());
    }

    println!("{}", test_file.len());

    let contents = ID3v1::get_contents_without_tag(&test_file);

    assert_eq!(contents, vec![1, 2]);
}

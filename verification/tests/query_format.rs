use proxy::api::{File, Post, Preview, Sample, Score};
use proxy::query::{i64_string, u64_string, QueryBuilder};

fn sample_post() -> Post {
    Post {
        id: 42,
        file: File {
            width: 800,
            height: 1600,
            ext: String::from("png"),
            size: 123456,
            md5: String::from("0123456789abcdef0123456789abcdef"),
            url: String::from("https://example.test/full.png"),
        },
        preview: Preview {
            width: 50,
            height: 75,
            url: String::from("https://example.test/preview.png"),
        },
        sample: Sample {
            has: true,
            height: 200,
            width: 100,
            url: String::from("https://example.test/sample.png"),
        },
        score: Score { up: 10, down: -2 },
        rating: String::from("s"),
    }
}

#[test]
fn round_trip_blob() {
    let mut builder = QueryBuilder::new();
    builder.push_header(5, 6, 7);
    builder.push_post(&sample_post(), (1, 2));
    let blob = builder.into_query();
    assert_eq!(blob, "600000,5,6,7\n1,42,100,200,50,75,10,-2,s,png,2,1200000");
}

#[test]
fn header_line_alone() {
    let mut builder = QueryBuilder::new();
    builder.push_header(0, 1, 2);
    assert_eq!(builder.into_query(), "600000,0,1,2");
}

#[test]
fn empty_builder_freezes_empty() {
    assert_eq!(QueryBuilder::new().into_query(), "");
}

#[test]
fn element_separators() {
    let mut builder = QueryBuilder::new();
    builder.push_element("a");
    builder.push_element("b");
    builder.push_newline();
    builder.push_element("c");
    builder.push_element("d");
    assert_eq!(builder.into_query(), "a,b\nc,d");
}

#[test]
fn decimal_renderings() {
    assert_eq!(u64_string(0), "0");
    assert_eq!(u64_string(7), "7");
    assert_eq!(u64_string(1200000), "1200000");
    assert_eq!(u64_string(u64::MAX), "18446744073709551615");
    assert_eq!(i64_string(0), "0");
    assert_eq!(i64_string(-2), "-2");
    assert_eq!(i64_string(600000), "600000");
    assert_eq!(i64_string(i64::MIN), "-9223372036854775808");
    assert_eq!(i64_string(i64::MAX), "9223372036854775807");
}

#[test]
fn two_posts_two_lines() {
    let mut builder = QueryBuilder::new();
    builder.push_header(4, 5, 6);
    let mut second = sample_post();
    second.id = 43;
    second.score = Score { up: 0, down: 0 };
    second.rating = String::from("q");
    builder.push_post(&sample_post(), (0, 1));
    builder.push_post(&second, (2, 3));
    assert_eq!(
        builder.into_query(),
        "600000,4,5,6\n0,42,100,200,50,75,10,-2,s,png,1,1200000\n2,43,100,200,50,75,0,0,q,png,3,1200000"
    );
}

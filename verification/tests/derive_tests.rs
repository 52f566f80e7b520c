use guest_trace::Emitter;
use guest_trace::Event;
use guest_trace::ProductRecord;
use guest_trace::record::read_record;
use guest_trace::record::u64_to_dec;

fn flat_tags(e: &Emitter) -> Vec<String> {
    let mut out = Vec::new();
    for ev in e.events() {
        if let Event::Tags(ts) = ev {
            for t in ts {
                out.push(t.clone());
            }
        }
    }
    out
}

#[test]
fn expected_brand_gives_numeric_tags_only() {
    let mut e = Emitter::new();
    let r = e.derive_tags_from_record(r#"{"brand":"Apple","price":549,"discountPercentage":12.96}"#);
    assert_eq!(flat_tags(&e), vec!["price:549", "discountPercentage:12.96"]);
    assert_eq!(e.events().len(), 1);
    assert_eq!(r.price, 549);
    assert_eq!(r.discount_text, "12.96");
    assert_eq!(r.brand, "Apple");
}

#[test]
fn other_brand_gives_sentinel_before_numeric_tags() {
    let mut e = Emitter::new();
    let r = e.derive_tags_from_record(r#"{"brand":"Samsung","price":200,"discountPercentage":5.0}"#);
    assert_eq!(flat_tags(&e), vec!["brand:unknown", "price:200", "discountPercentage:5"]);
    assert_eq!(e.events().len(), 2);
    assert!(matches!(&e.events()[0], Event::Tags(ts) if ts == &["brand:unknown"]));
    assert_eq!(r.brand, "Samsung");
}

#[test]
fn unparseable_text_defaults_and_tags_sentinel() {
    let mut e = Emitter::new();
    let r = e.derive_tags_from_record("not json");
    assert_eq!(flat_tags(&e), vec!["brand:unknown", "price:0", "discountPercentage:0"]);
    assert_eq!(r.price, 0);
    assert_eq!(r.discount_text, "0");
    assert_eq!(r.brand, "");
}

#[test]
fn empty_text_defaults_and_tags_sentinel() {
    let mut e = Emitter::new();
    let r = e.derive_tags_from_record("");
    assert_eq!(flat_tags(&e), vec!["brand:unknown", "price:0", "discountPercentage:0"]);
    assert_eq!(r, ProductRecord::default());
}

#[test]
fn truncated_json_defaults_and_tags_sentinel() {
    let mut e = Emitter::new();
    let r = e.derive_tags_from_record(r#"{"brand":"App"#);
    assert_eq!(flat_tags(&e), vec!["brand:unknown", "price:0", "discountPercentage:0"]);
    assert_eq!(r.brand, "");
}

#[test]
fn wrongly_typed_fields_default_one_by_one() {
    let mut e = Emitter::new();
    let r = e.derive_tags_from_record(r#"{"brand":3,"price":"much","discountPercentage":true}"#);
    assert_eq!(flat_tags(&e), vec!["brand:unknown", "price:0", "discountPercentage:0"]);
    assert_eq!(r, ProductRecord::default());
}

#[test]
fn fractional_price_is_not_an_unsigned_integer() {
    let mut e = Emitter::new();
    let r = e.derive_tags_from_record(r#"{"brand":"Apple","price":549.5,"discountPercentage":1.5}"#);
    assert_eq!(flat_tags(&e), vec!["price:0", "discountPercentage:1.5"]);
    assert_eq!(r.price, 0);
}

#[test]
fn full_product_document_derives_its_tags() {
    let text = r#"{"id":1,"title":"iPhone 9","description":"An apple mobile which is nothing like apple","price":549,"discountPercentage":12.96,"rating":4.69,"stock":94,"brand":"Apple","category":"smartphones","thumbnail":"https://cdn.dummyjson.com/product-images/1/thumbnail.jpg","images":["https://cdn.dummyjson.com/product-images/1/1.jpg"]}"#;
    let mut e = Emitter::new();
    let r = e.derive_tags_from_record(text);
    assert_eq!(flat_tags(&e), vec!["price:549", "discountPercentage:12.96"]);
    assert_eq!(r.price, 549);
    assert_eq!(r.brand, "Apple");
}

#[test]
fn derivation_leaves_the_span_stack_alone() {
    let mut e = Emitter::new();
    e.enter("work".to_string()).unwrap();
    e.derive_tags_from_record("not json");
    assert_eq!(e.current().map(|s| s.as_str()), Some("work"));
    assert_eq!(e.span_stack().depth(), 1);
    e.exit().unwrap();
}

#[test]
fn read_record_alone_reads_or_defaults_each_field() {
    let r = read_record(r#"{"brand":"Acme","discountPercentage":7.25}"#);
    assert_eq!(r.price, 0);
    assert_eq!(r.discount_text, "7.25");
    assert_eq!(r.brand, "Acme");
}

#[test]
fn default_record_is_all_defaults() {
    let r = ProductRecord::default();
    assert_eq!(r.price, 0);
    assert_eq!(r.discount_text, "0");
    assert_eq!(r.brand, "");
}

#[test]
fn decimal_text_of_exact_values() {
    assert_eq!(u64_to_dec(0), "0");
    assert_eq!(u64_to_dec(7), "7");
    assert_eq!(u64_to_dec(10), "10");
    assert_eq!(u64_to_dec(549), "549");
    assert_eq!(u64_to_dec(18446744073709551615), "18446744073709551615");
}

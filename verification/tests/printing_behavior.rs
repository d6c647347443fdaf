use snippets::printing::ComplexStruct;
use snippets::printing::MyVec;
use snippets::printing::PrintItem;
use snippets::printing::Printable;
use snippets::printing::RequestTime;
use snippets::printing::SarcasmDisplay;
use snippets::printing::TimeResponse;
use snippets::printing::generic_print_list;
use snippets::printing::generic_printer_style_a;
use snippets::printing::generic_printer_style_b;
use snippets::printing::generic_printer_style_c;
use snippets::printing::print_vector_of_sarcasm;
use snippets::printing::u64_to_string;
use snippets::printing::use_sarcasm;
use snippets::queues::BoxPrintQueue;
use snippets::queues::PrintQueue;
use snippets::queues::Printer;
use snippets::queues::print_anything;

#[test]
fn request_time_prints_its_name() {
    let req = RequestTime {};
    assert_eq!(req.print(), "RequestTime()");
}

#[test]
fn time_response_prints_name_and_seconds() {
    let res = TimeResponse { time_in_sec: 0 };
    assert_eq!(res.print(), "TimeResponse0");
    let res = TimeResponse { time_in_sec: 42 };
    assert_eq!(res.print(), "TimeResponse42");
}

#[test]
fn decimal_rendering_is_exact() {
    assert_eq!(u64_to_string(0), "0");
    assert_eq!(u64_to_string(7), "7");
    assert_eq!(u64_to_string(10), "10");
    assert_eq!(u64_to_string(1010101), "1010101");
    assert_eq!(u64_to_string(u64::MAX), "18446744073709551615");
}

#[test]
fn heterogeneous_list_prints_both_items() {
    let lines = generic_print_list();
    assert_eq!(lines.len(), 2);
    assert_eq!(lines[0], "RequestTime()");
    assert_eq!(lines[1], "TimeResponse0");
}

#[test]
fn three_printer_styles_agree() {
    let a = generic_printer_style_a(RequestTime {});
    let b = generic_printer_style_b(RequestTime {});
    let c = generic_printer_style_c(RequestTime {});
    assert_eq!(a, "RequestTime()");
    assert_eq!(b, a);
    assert_eq!(c, a);
}

#[test]
fn sarcasm_wraps_string_and_number() {
    let (a, b) = use_sarcasm();
    assert_eq!(a, "<sarcasm>str?</sarcasm>");
    assert_eq!(b, "<sarcasm>1010101</sarcasm>");
}

#[test]
fn sarcasm_on_a_number_uses_its_decimal_form() {
    let n: u64 = 9000;
    assert_eq!(n.sarcasm(), "<sarcasm>9000</sarcasm>");
}

#[test]
fn newtype_vector_prints_under_sarcasm() {
    assert_eq!(
        print_vector_of_sarcasm(),
        "<sarcasm>hello worldhello octopus</sarcasm>"
    );
}

#[test]
fn newtype_vector_concatenates_element_prints() {
    let v = MyVec(vec![3u64, 14u64, 15u64]);
    assert_eq!(v.print(), "31415");
}

#[test]
fn empty_newtype_vector_prints_nothing() {
    let v: MyVec<u64> = MyVec(vec![]);
    assert_eq!(v.print(), "");
}

#[test]
fn borrowed_queue_prints_in_order() {
    let req = PrintItem::Request(RequestTime {});
    let res = PrintItem::Response(TimeResponse { time_in_sec: 5 });
    let queue = PrintQueue {
        queue: vec![&req, &res],
    };
    let lines = queue.print();
    assert_eq!(lines, vec!["RequestTime()", "TimeResponse5"]);
}

#[test]
fn boxed_queue_prints_in_order() {
    let queue = BoxPrintQueue {
        queue: vec![
            Box::new(PrintItem::Response(TimeResponse { time_in_sec: 123 })),
            Box::new(PrintItem::Request(RequestTime {})),
        ],
    };
    let lines = queue.print();
    assert_eq!(lines, vec!["TimeResponse123", "RequestTime()"]);
}

#[test]
fn static_dispatch_prints_anything_printable() {
    let res = TimeResponse { time_in_sec: 8 };
    assert_eq!(print_anything(&res), "TimeResponse8");
}

#[test]
fn derived_capabilities_on_complex_struct() {
    let a = ComplexStruct {
        string: String::from("abc"),
        number: 1,
    };
    let b = a.clone();
    assert_eq!(a, b);
    let d = ComplexStruct::default();
    assert_eq!(d.string, "");
    assert_eq!(d.number, 0);
    assert!(d < a);
}

use datathing::fault::{write_decimal, Fault, TraceEntry};

#[test]
fn report_with_traceback() {
    let f = Fault {
        trace: vec![
            TraceEntry { file: "<script>".to_owned(), line: 3, function: "<module>".to_owned() },
            TraceEntry { file: "<script>".to_owned(), line: 12, function: "f".to_owned() },
        ],
        kind: "ZeroDivisionError".to_owned(),
        message: "division by zero".to_owned(),
    };
    assert_eq!(
        f.describe(),
        "Traceback (most recent call last):\n  File \"<script>\", line 3, in <module>\n  File \"<script>\", line 12, in f\nZeroDivisionError: division by zero\n"
    );
}

#[test]
fn report_without_traceback_or_message() {
    let f = Fault { trace: vec![], kind: "StopIteration".to_owned(), message: String::new() };
    assert_eq!(f.describe(), "StopIteration\n");
    let g = Fault { trace: vec![], kind: String::new(), message: String::new() };
    assert_eq!(g.describe(), "\n");
}

#[test]
fn decimals() {
    for (n, text) in [(0u32, "0"), (7, "7"), (10, "10"), (305, "305"), (u32::MAX, "4294967295")] {
        let mut s = "x".to_owned();
        write_decimal(&mut s, n);
        assert_eq!(s, format!("x{}", text));
    }
}

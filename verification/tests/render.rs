use async_trampoline::render::Figures;
use async_trampoline::report::{
    AnonymousTestResult, BenchError, BodySummary, Column, Format, Implementation, Out, Summary,
    TestSuite, CSV, Text,
};

fn measured(mean: f64) -> Summary {
    Summary {
        mean: mean.to_bits(),
        median: mean.to_bits(),
        min: mean.to_bits(),
        max: mean.to_bits(),
        std_dev: 1f64.to_bits(),
    }
}

fn figures(ratio: &str, median: &str, rsd: &str, percentage: &str) -> Figures {
    Figures {
        ratio: ratio.to_string(),
        median: median.to_string(),
        rsd: rsd.to_string(),
        percentage: percentage.to_string(),
    }
}

fn plain() -> Out {
    let bare = |mean: f64| AnonymousTestResult {
        grand_summary: measured(mean),
        bodies_summary: vec![],
        bodies_median_sum: 0f64.to_bits(),
    };
    Out::new(vec![
        TestSuite {
            name: "zeta".to_string(),
            implementations: vec![Implementation { name: "native".to_string(), result: bare(2.0) }],
        },
        TestSuite {
            name: "alpha".to_string(),
            implementations: vec![Implementation { name: "only".to_string(), result: bare(0.0) }],
        },
    ])
}

fn broken_down() -> Out {
    Out::new(vec![TestSuite {
        name: "zeta".to_string(),
        implementations: vec![Implementation {
            name: "wasm".to_string(),
            result: AnonymousTestResult {
                grand_summary: measured(4.0),
                bodies_summary: vec![
                    BodySummary { name: "f".to_string(), summary: measured(1.0) },
                    BodySummary { name: "g".to_string(), summary: measured(3.0) },
                ],
                bodies_median_sum: 4f64.to_bits(),
            },
        }],
    }])
}

#[test]
fn text_table_is_printed_in_order_of_names() {
    let out = plain();
    assert_eq!(out.out(Format::Text, false).rows.len(), 2);
    let rendered = Text
        .render(&out, false, &vec![figures("0", "0", "0", ""), figures("1", "2", "50", "")])
        .unwrap();
    assert_eq!(
        String::from_utf8(rendered).unwrap(),
        "Test  | Implementation | Ratio | Median | RSD\n\
         ------+----------------+-------+--------+----\n\
         alpha | only           | 0     | 0      | 0  \n\
         zeta  | native         | 1     | 2      | 50 \n"
    );
}

#[test]
fn text_table_with_breakdown() {
    let out = broken_down();
    let rendered = Text
        .render(
            &out,
            true,
            &vec![
                figures("1", "4", "25", ""),
                figures("", "1", "100", "25.00 %"),
                figures("", "3", "33", "75.00 %"),
            ],
        )
        .unwrap();
    assert_eq!(
        String::from_utf8(rendered).unwrap(),
        "Test | Implementation | Ratio | Median | RSD | Function | Percentage\n-----+----------------+-------+--------+-----+----------+-----------\nzeta | wasm           | 1     | 4      | 25  |          |           \n     |                |       |        |     | f        | 25.00 %   \n     |                |       |        |     | g        | 75.00 %   \n"
    );
}

#[test]
fn csv_lines_without_breakdown() {
    let rendered =
        CSV.render(&plain(), false, &vec![figures("0", "0", "0", ""), figures("1", "2", "50", "")]);
    assert_eq!(
        rendered,
        "Test\tImplementation\tRatio\tMedian\tRSD\nalpha\tonly\t0\t0\t0\nzeta\tnative\t1\t2\t50\n"
    );
}

#[test]
fn csv_lines_with_breakdown() {
    let rendered = CSV.render(
        &broken_down(),
        true,
        &vec![figures("", "1", "100", "25.00 %"), figures("", "3", "33", "75.00 %")],
    );
    assert_eq!(
        rendered,
        "Test\tFunction\tImplementation\tMedian\tRSD\tPercentage\n\
         zeta\tf\twasm\t1\t100\t25.00 %\n\
         zeta\tg\twasm\t3\t33\t75.00 %\n"
    );
}

#[test]
fn csv_of_no_results_is_the_header_line() {
    assert_eq!(
        CSV.render(&Out::new(vec![]), false, &vec![]),
        "Test\tImplementation\tRatio\tMedian\tRSD\n"
    );
}

#[test]
fn column_titles() {
    let titles: Vec<String> = [
        Column::Test,
        Column::Implementation,
        Column::Ratio,
        Column::Median,
        Column::RSD,
        Column::Function,
        Column::Percentage,
    ]
    .iter()
    .map(|column| column.name())
    .collect();
    assert_eq!(
        titles,
        vec!["Test", "Implementation", "Ratio", "Median", "RSD", "Function", "Percentage"]
    );
}

#[test]
fn failed_write_is_an_io_error() {
    let failed = std::io::Error::new(std::io::ErrorKind::Other, "disk full");
    assert_eq!(Text::written(Err(failed)), Err(BenchError::Io));
    assert_eq!(Text::written(Ok(vec![1, 2, 3])), Ok(vec![1, 2, 3]));
}

#[test]
fn csv_lines_come_one_by_one() {
    let given = vec![figures("0", "0", "0", ""), figures("1", "2", "50", "")];
    let lines = CSV.lines(&plain(), false, &given);
    assert_eq!(
        lines,
        vec![
            "Test\tImplementation\tRatio\tMedian\tRSD\n",
            "alpha\tonly\t0\t0\t0\n",
            "zeta\tnative\t1\t2\t50\n"
        ]
    );
    assert_eq!(lines.concat(), CSV.render(&plain(), false, &given));
    assert_eq!(CSV.lines(&Out::new(vec![]), true, &vec![]).len(), 1);
}

#[test]
fn text_table_of_no_results_is_the_header() {
    let rendered = Text.render(&Out::new(vec![]), false, &vec![]);
    assert_eq!(
        rendered.map(|bytes| String::from_utf8(bytes).unwrap()),
        Ok("Test | Implementation | Ratio | Median | RSD\n-----+----------------+-------+--------+----\n".to_string())
    );
}

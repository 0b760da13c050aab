use batchplot::error::ChartError;
use batchplot::plan::{
    render_plan, AXIS_TICKS, BAND_HEIGHT, BORDER_STROKE_WIDTH, CANVAS_HEIGHT, CANVAS_WIDTH,
    CHART_MARGIN, LABEL_FONT_SIZE, X_LABEL_AREA, Y_LABEL_AREA,
};
use batchplot::record::{Field, Record};

fn record(time: f64, samples: f64, bases: f64, mq: f64, ttp: f64, tib: f64) -> Record {
    Record {
        time: time.to_bits(),
        samples: samples.to_bits(),
        bases: bases.to_bits(),
        mean_qscore: mq.to_bits(),
        time_to_package_and_send: ttp.to_bits(),
        time_in_basecaller: tib.to_bits(),
    }
}

#[test]
fn empty_dataset_is_rejected() {
    let data: Vec<Record> = Vec::new();
    let r = render_plan(&data);
    assert!(matches!(r, Err(ChartError::EmptyDataset)));
}

#[test]
fn layout_constants() {
    assert_eq!(CANVAS_WIDTH, 2200);
    assert_eq!(CANVAS_HEIGHT, 1800);
    assert_eq!(BAND_HEIGHT, 360);
    assert_eq!(CHART_MARGIN, 20);
    assert_eq!(X_LABEL_AREA, 50);
    assert_eq!(Y_LABEL_AREA, 100);
    assert_eq!(LABEL_FONT_SIZE, 20);
    assert_eq!(BORDER_STROKE_WIDTH, 2);
    assert_eq!(AXIS_TICKS, 5);
}

#[test]
fn panel_layout_and_order() {
    let data = vec![record(1.0, 2.0, 3.0, 4.0, 5.0, 6.0)];
    let plan = render_plan(&data).unwrap();
    assert_eq!(plan.width, 2200);
    assert_eq!(plan.height, 1800);
    assert_eq!(plan.panels.len(), 5);
    assert_eq!(plan.panels[0].field, Field::Samples);
    assert_eq!(plan.panels[1].field, Field::Bases);
    assert_eq!(plan.panels[2].field, Field::MeanQscore);
    assert_eq!(plan.panels[3].field, Field::TimeToPackageAndSend);
    assert_eq!(plan.panels[4].field, Field::TimeInBasecaller);
    assert_eq!(plan.panels[0].title, "Samples");
    assert_eq!(plan.panels[2].title, "Mean Q-score");
    let mut k: usize = 0;
    while k < 5 {
        let p = &plan.panels[k];
        assert_eq!(p.band_top, (k as u32) * 360);
        assert_eq!(p.band_bottom, (k as u32 + 1) * 360);
        assert_eq!(p.border_x0, 0);
        assert_eq!(p.border_y0, p.band_top);
        assert_eq!(p.border_x1, 2199);
        assert_eq!(p.border_y1, p.band_bottom - 1);
        k += 1;
    }
}

#[test]
fn axis_bounds_are_min_and_max() {
    let data = vec![
        record(10.0, 100.0, 7.0, 30.5, 0.25, 1.5),
        record(5.0, 200.0, 9.0, 31.5, 0.75, 0.5),
        record(20.0, 150.0, 8.0, 29.5, 0.5, 1.0),
    ];
    let plan = render_plan(&data).unwrap();
    assert_eq!(f64::from_bits(plan.x_min), 5.0);
    assert_eq!(f64::from_bits(plan.x_max), 20.0);
    assert_eq!(f64::from_bits(plan.panels[0].y_min), 100.0);
    assert_eq!(f64::from_bits(plan.panels[0].y_max), 200.0);
    assert_eq!(f64::from_bits(plan.panels[1].y_min), 7.0);
    assert_eq!(f64::from_bits(plan.panels[1].y_max), 9.0);
    assert_eq!(f64::from_bits(plan.panels[2].y_min), 29.5);
    assert_eq!(f64::from_bits(plan.panels[2].y_max), 31.5);
    assert_eq!(f64::from_bits(plan.panels[3].y_min), 0.25);
    assert_eq!(f64::from_bits(plan.panels[3].y_max), 0.75);
    assert_eq!(f64::from_bits(plan.panels[4].y_min), 0.5);
    assert_eq!(f64::from_bits(plan.panels[4].y_max), 1.5);
}

#[test]
fn degenerate_range_keeps_single_point() {
    let data = vec![record(1.0, 3.0, 3.0, 3.0, 3.0, 3.0), record(1.0, 3.0, 3.0, 3.0, 3.0, 3.0)];
    let plan = render_plan(&data).unwrap();
    assert_eq!(plan.x_min, plan.x_max);
    assert_eq!(plan.panels[0].y_min, plan.panels[0].y_max);
    assert_eq!(f64::from_bits(plan.panels[0].y_min), 3.0);
}

#[test]
fn points_follow_record_order() {
    let data = vec![record(1.0, 10.0, 20.0, 30.0, 40.0, 50.0), record(2.0, 11.0, 21.0, 31.0, 41.0, 51.0)];
    let plan = render_plan(&data).unwrap();
    let samples = &plan.panels[0].points;
    assert_eq!(samples.len(), 2);
    assert_eq!(samples[0], (1.0f64.to_bits(), 10.0f64.to_bits()));
    assert_eq!(samples[1], (2.0f64.to_bits(), 11.0f64.to_bits()));
    let tib = &plan.panels[4].points;
    assert_eq!(tib[0], (1.0f64.to_bits(), 50.0f64.to_bits()));
    assert_eq!(tib[1], (2.0f64.to_bits(), 51.0f64.to_bits()));
}

#[test]
fn planning_is_deterministic() {
    let data = vec![
        record(10.0, 100.0, 7.0, 30.5, 0.25, 1.5),
        record(5.0, 200.0, 9.0, 31.5, 0.75, 0.5),
        record(20.0, 150.0, 8.0, 29.5, 0.5, 1.0),
    ];
    let first = render_plan(&data).unwrap();
    let second = render_plan(&data).unwrap();
    assert_eq!(first, second);
}

#[test]
fn end_to_end_three_rows() {
    let text = "a,b,batch_time,samples,bases,c,mean_qscore,ttp,tib\n\
                x,y,10.0,100,1,q,30.0,0.1,0.2\n\
                x,y,5.0,200,2,q,31.0,0.2,0.3\n\
                x,y,20.0,150,3,q,32.0,0.3,0.4\n";
    let rows = batchplot::csv_input::rows_from_bytes(text.as_bytes()).unwrap();
    let mut all_cells: Vec<Vec<batchplot::loader::CellOutcome>> = Vec::new();
    for row in &rows {
        let mut cells: Vec<batchplot::loader::CellOutcome> = Vec::new();
        let mut k: usize = 0;
        while k < 6 {
            let f = batchplot::record::field_of_slot(k);
            match batchplot::csv_input::row_cell(row, f) {
                Some(cell) => match cell.parse::<f64>() {
                    Ok(v) => cells.push(batchplot::loader::CellOutcome::Value(v.to_bits())),
                    Err(_) => cells.push(batchplot::loader::CellOutcome::NotNumeric),
                },
                None => cells.push(batchplot::loader::CellOutcome::Missing),
            }
            k += 1;
        }
        all_cells.push(cells);
    }
    let data = batchplot::loader::load_records(&all_cells).unwrap();
    assert_eq!(data.len(), 3);
    assert_eq!(f64::from_bits(data[0].time), 5.0);
    assert_eq!(f64::from_bits(data[1].time), 10.0);
    assert_eq!(f64::from_bits(data[2].time), 20.0);
    assert_eq!(f64::from_bits(data[0].samples), 200.0);
    assert_eq!(f64::from_bits(data[1].samples), 100.0);
    assert_eq!(f64::from_bits(data[2].samples), 150.0);
    let plan = render_plan(&data).unwrap();
    assert_eq!(plan.panels.len(), 5);
    assert_eq!(plan.panels[0].points.len(), 3);
    assert_eq!(f64::from_bits(plan.x_min), 5.0);
    assert_eq!(f64::from_bits(plan.x_max), 20.0);
}

#[test]
fn header_only_input_yields_empty_dataset() {
    let text = "a,b,batch_time,samples,bases,c,mean_qscore,ttp,tib\n";
    let rows = batchplot::csv_input::rows_from_bytes(text.as_bytes()).unwrap();
    assert_eq!(rows.len(), 0);
    let empty: Vec<Vec<batchplot::loader::CellOutcome>> = Vec::new();
    let data = batchplot::loader::load_records(&empty).unwrap();
    assert_eq!(data.len(), 0);
    let r = render_plan(&data);
    assert!(matches!(r, Err(ChartError::EmptyDataset)));
}

use fftw_plan::builder::Direction;
use fftw_plan::builder::Planner;
use fftw_plan::builder::Rigor;
use fftw_plan::engine::ComplexVec;
use fftw_plan::engine::RealVec;
use fftw_plan::plan::c2c_lengths_ok;
use fftw_plan::plan::c2r_lengths_ok;
use fftw_plan::plan::r2c_lengths_ok;
use fftw_plan::plan::Plan;

fn close(a: f64, b: f64) -> bool {
    (a - b).abs() <= 1e-9 * (1.0 + a.abs().max(b.abs()))
}

#[test]
fn buffers_allocate_zeroed() {
    let r = RealVec::zeros(5);
    assert_eq!(r.len(), 5);
    let c = ComplexVec::zeros(3);
    assert_eq!(c.len(), 3);
}

#[test]
fn r2c_length_one_produces_length_one() {
    let mut p = Plan::r2c_1d(1).unwrap_or_else(|_| panic!("planning failed"));
    assert_eq!(p.input().len(), 1);
    p.set_input(0, (3.0f64).to_bits());
    let out = p.execute();
    assert_eq!(out.len(), 1);
    assert!(close(f64::from_bits(out[0].0), 3.0));
    assert!(close(f64::from_bits(out[0].1), 0.0));
}

#[test]
fn length_checks_match_plan_preconditions() {
    assert!(c2c_lengths_ok(4, 4));
    assert!(c2c_lengths_ok(4, 6));
    assert!(!c2c_lengths_ok(6, 4));
    assert!(r2c_lengths_ok(8, 5));
    assert!(!r2c_lengths_ok(8, 4));
    assert!(c2r_lengths_ok(5, 8));
    // A complex-to-real plan whose input exceeds out_len / 2 + 1 fails the
    // check before any engine call is reached.
    assert!(!c2r_lengths_ok(7, 8));
    assert!(!c2r_lengths_ok(4, 8));
}

#[test]
fn execute_twice_is_bit_identical() {
    let mut p = Plan::c2c_1d(8).unwrap_or_else(|_| panic!("planning failed"));
    for i in 0..8usize {
        let re = (i as f64) * 0.25 - 1.0;
        let im = 1.0 / (i as f64 + 1.0);
        p.set_input(i, (re.to_bits(), im.to_bits()));
    }
    let first = p.execute();
    let second = p.execute();
    assert_eq!(first, second);
}

#[test]
fn c2c_forward_backward_round_trip_scales_by_n() {
    let n = 4usize;
    let input: [(f64, f64); 4] = [(1.0, 0.5), (2.0, -1.0), (-0.75, 0.25), (0.0, 3.0)];

    let fwd_mem = Planner::new().c2c(ComplexVec::zeros(n), ComplexVec::zeros(n));
    let mut fwd = fwd_mem.plan().unwrap_or_else(|_| panic!("forward planning failed"));
    for (i, (re, im)) in input.iter().enumerate() {
        fwd.set_input(i, (re.to_bits(), im.to_bits()));
    }
    fwd.execute();
    let spectrum = fwd.output().expect("out-of-place plan has an output");

    let bwd_mem = Planner::new()
        .direction(Direction::Backward)
        .c2c(ComplexVec::zeros(n), ComplexVec::zeros(n));
    let mut bwd = bwd_mem.plan().unwrap_or_else(|_| panic!("backward planning failed"));
    for (i, x) in spectrum.iter().enumerate() {
        bwd.set_input(i, *x);
    }
    bwd.execute();
    let back = bwd.output().expect("out-of-place plan has an output");

    for (i, (re, im)) in input.iter().enumerate() {
        let got_re = f64::from_bits(back[i].0);
        let got_im = f64::from_bits(back[i].1);
        assert!(close(got_re, re * n as f64), "re[{i}]: {got_re} vs {}", re * n as f64);
        assert!(close(got_im, im * n as f64), "im[{i}]: {got_im} vs {}", im * n as f64);
    }
}

#[test]
fn r2c_c2r_round_trip_scales_by_n() {
    let n = 8usize;
    let input: [f64; 8] = [1.0, 2.0, -3.0, 0.5, 0.0, 4.0, -1.25, 2.5];

    let mut fwd = Plan::r2c_1d(n).unwrap_or_else(|_| panic!("planning failed"));
    for (i, x) in input.iter().enumerate() {
        fwd.set_input(i, x.to_bits());
    }
    let echoed = fwd.input();
    for (i, x) in input.iter().enumerate() {
        assert_eq!(echoed[i], x.to_bits(), "input element {i} was not stored as given");
    }
    let spectrum = fwd.execute();
    assert_eq!(spectrum.len(), n / 2 + 1);

    let mut bwd = Plan::c2r_1d(n).unwrap_or_else(|_| panic!("planning failed"));
    for (i, x) in spectrum.iter().enumerate() {
        bwd.set_input(i, *x);
    }
    let back = bwd.execute();
    assert_eq!(back.len(), n);
    for (i, x) in input.iter().enumerate() {
        let got = f64::from_bits(back[i]);
        assert!(close(got, x * n as f64), "elem {i}: {got} vs {}", x * n as f64);
    }
    // The complex-to-real execution must leave its input spectrum
    // bit-for-bit intact (the plan is built with input preservation).
    let kept = bwd.input();
    for (i, x) in spectrum.iter().enumerate() {
        assert_eq!(kept[i], *x, "spectrum element {i} was clobbered by execution");
    }
}

#[test]
fn inplace_c2c_transforms_its_buffer() {
    let n = 4usize;
    let mem = Planner::new().inplace().c2c(ComplexVec::zeros(n));
    let mut p = mem.plan().unwrap_or_else(|_| panic!("planning failed"));
    assert!(p.output().is_none());
    p.set_input(0, ((1.0f64).to_bits(), (0.0f64).to_bits()));
    for i in 1..n {
        p.set_input(i, ((0.0f64).to_bits(), (0.0f64).to_bits()));
    }
    p.execute();
    // The transform of the unit impulse is all ones, exactly.
    let seen = p.input();
    for (i, x) in seen.iter().enumerate() {
        assert_eq!(f64::from_bits(x.0), 1.0, "re[{i}]");
        assert_eq!(f64::from_bits(x.1), 0.0, "im[{i}]");
    }
}

#[test]
fn wisdom_restriction_without_wisdom_fails_and_returns_config() {
    let n = 31usize;
    let mem = Planner::new()
        .rigor(Rigor::Estimate)
        .wisdom_restriction(true)
        .c2c(ComplexVec::zeros(n), ComplexVec::zeros(n));
    match mem.plan() {
        Ok(_) => panic!("wisdom restriction with no prior wisdom must fail"),
        Err(back) => {
            // The configuration and its buffers come back intact: retrying
            // is possible (and fails again, the wisdom still missing).
            assert!(back.plan().is_err());
        }
    }
}

#[test]
fn builder_r2c_and_c2r_paths_execute() {
    let n = 6usize;
    let mem = Planner::new().r2c(RealVec::zeros(n), ComplexVec::zeros(n / 2 + 1));
    let mut p = mem.plan().unwrap_or_else(|_| panic!("planning failed"));
    for i in 0..n {
        p.set_input(i, (i as f64 + 1.0).to_bits());
    }
    p.execute();
    let spectrum = p.output().expect("out-of-place plan has an output");
    assert_eq!(spectrum.len(), n / 2 + 1);
    // Mean component: sum of 1..=6 is 21.
    assert!(close(f64::from_bits(spectrum[0].0), 21.0));
    assert!(close(f64::from_bits(spectrum[0].1), 0.0));

    let mem = Planner::new().c2r(ComplexVec::zeros(n / 2 + 1), RealVec::zeros(n));
    let mut q = mem.plan().unwrap_or_else(|_| panic!("planning failed"));
    for (i, x) in spectrum.iter().enumerate() {
        q.set_input(i, *x);
    }
    q.execute();
    let back = q.output().expect("out-of-place plan has an output");
    for i in 0..n {
        let got = f64::from_bits(back[i]);
        let want = (i as f64 + 1.0) * n as f64;
        assert!(close(got, want), "elem {i}: {got} vs {want}");
    }
}

#[test]
fn take_operations_reclaim_buffers() {
    let mut p = Plan::c2c_1d(4).unwrap_or_else(|_| panic!("planning failed"));
    p.set_input(0, ((2.0f64).to_bits(), (0.0f64).to_bits()));
    let produced = p.execute();
    let out = p.take_out();
    assert_eq!(out.len(), 4);
    for (i, x) in produced.iter().enumerate() {
        assert_eq!(out.get(i), *x, "reclaimed output element {i} differs");
    }

    let mut q = Plan::r2c_1d(5).unwrap_or_else(|_| panic!("planning failed"));
    q.set_input(2, (7.5f64).to_bits());
    let in_ = q.take_in();
    assert_eq!(in_.len(), 5);
    assert_eq!(in_.get(2), (7.5f64).to_bits());
}

#[test]
fn planner_defaults_are_forward_estimate() {
    let p = Planner::new();
    assert_eq!(p.rigor, Rigor::Estimate);
    assert_eq!(p.direction, Direction::Forward);
    assert!(!p.wisdom_restriction);
}

#[test]
fn measure_rigor_plans_and_executes() {
    let n = 16usize;
    let mem = Planner::new().rigor(Rigor::Measure).c2c(ComplexVec::zeros(n), ComplexVec::zeros(n));
    let mut p = mem.plan().unwrap_or_else(|_| panic!("planning failed"));
    // Measurement-based planning may scribble over the buffers, so the
    // input is written only now, through the finalized plan.
    p.set_input(0, ((1.0f64).to_bits(), (0.0f64).to_bits()));
    for i in 1..n {
        p.set_input(i, ((0.0f64).to_bits(), (0.0f64).to_bits()));
    }
    p.execute();
    let out = p.output().expect("out-of-place plan has an output");
    for (i, x) in out.iter().enumerate() {
        assert_eq!(f64::from_bits(x.0), 1.0, "re[{i}]");
        assert_eq!(f64::from_bits(x.1), 0.0, "im[{i}]");
    }
}

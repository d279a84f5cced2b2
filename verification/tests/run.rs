use candle_moe::dtype::{DType, Half};
use candle_moe::error::MoeError;
use candle_moe::offsets::launch_expert_offsets;
use candle_moe::plan::{Alloc, Buffer, Kernel, KernelModule, Output, Plan, Step};
use candle_moe::run::{next_step, Ending, Next};

const OUTPUT: Output = Output { rows: 20, cols: 100, dtype: DType::F32 };

/// Runs a plan in which the steps fail as `replies` says; gives the steps begun and the ending.
fn follow(plan: &Plan, replies: &[Option<&str>]) -> (usize, Ending) {
    let mut begun = 0;
    let mut done = 0;
    let mut cause = None;
    loop {
        match next_step(plan, done, cause.take()) {
            Next::Do(i) => {
                assert_eq!(i, done);
                begun += 1;
                match replies[i] {
                    Some(text) => cause = Some(text.to_string()),
                    None => done += 1,
                }
            }
            Next::End(ending) => return (begun, ending),
        }
    }
}

fn offsets() -> Plan {
    let mut steps = Vec::new();
    launch_expert_offsets(20, 8, &mut steps);
    Plan { steps, result: Ok(OUTPUT) }
}

#[test]
fn offsets_succeed_with_every_step() {
    let plan = offsets();
    let kernels: Vec<Kernel> = plan
        .steps
        .iter()
        .filter_map(|step| match step {
            Step::Launch(launch) => Some(launch.kernel),
            _ => None,
        })
        .collect();
    assert_eq!(kernels, vec![Kernel::CountTokensPerExpert, Kernel::ExpertPrefixSum]);
    assert!(kernels.iter().all(|kernel| kernel.module() == KernelModule::MoeWmma));
    assert_eq!(follow(&plan, &[None; 4]), (4, Ending::Computed(OUTPUT)));
}

#[test]
fn a_failed_count_stops_the_offsets() {
    let (begun, ending) = follow(&offsets(), &[None, Some("e"), None, Some("never")]);
    assert_eq!(begun, 2);
    assert_eq!(ending, Ending::Reported("count_tokens_per_expert launch: e".to_string()));
}

#[test]
fn a_failed_scan_ends_the_offsets() {
    let (begun, ending) = follow(&offsets(), &[None, None, None, Some("e")]);
    assert_eq!(begun, 4);
    assert_eq!(ending, Ending::Reported("expert_prefix_sum launch: e".to_string()));
}

#[test]
fn other_failures_are_handed_on() {
    let (begun, ending) = follow(&offsets(), &[Some("no module"), None, None, None]);
    assert_eq!(begun, 1);
    assert_eq!(ending, Ending::PassedOn("no module".to_string()));
    let (begun, ending) = follow(&offsets(), &[None, None, Some("no kernel"), None]);
    assert_eq!(begun, 3);
    assert_eq!(ending, Ending::PassedOn("no kernel".to_string()));
    let plan = Plan {
        steps: vec![
            Step::Alloc(Alloc {
                buffer: Buffer::Output,
                elem: DType::F32,
                len: 2000,
                zeroed: false,
            }),
            Step::ConvertInput(Half::F16),
        ],
        result: Ok(OUTPUT),
    };
    assert_eq!(
        follow(&plan, &[Some("out of memory"), None]),
        (1, Ending::PassedOn("out of memory".to_string()))
    );
    assert_eq!(follow(&plan, &[None, Some("x")]), (2, Ending::PassedOn("x".to_string())));
}

#[test]
fn a_refusal_comes_after_its_steps() {
    let mut plan = offsets();
    plan.result = Err(MoeError::UnsupportedPrefillDType);
    assert_eq!(
        follow(&plan, &[None; 4]),
        (4, Ending::Refused(MoeError::UnsupportedPrefillDType))
    );
    let (begun, ending) = follow(&plan, &[None, None, None, Some("e")]);
    assert_eq!(begun, 4);
    assert_eq!(ending, Ending::Reported("expert_prefix_sum launch: e".to_string()));
}

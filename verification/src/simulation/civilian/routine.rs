use vstd::prelude::*;

use crate::simulation::civilian::{
    EducationLevel, EducationTrack, JobStatus, LifeStage, LifeState, RoutineActivity, RoutineBlock,
    RoutineSchedule,
};

verus! {

/// The hour a block ends, at most 255.
pub open spec fn block_end(b: RoutineBlock) -> int {
    if b.start_hour + b.duration <= 255 {
        b.start_hour + b.duration
    } else {
        255
    }
}

/// The block covers the hour.
pub open spec fn covers(b: RoutineBlock, hour: u8) -> bool {
    b.start_hour <= hour && hour < block_end(b)
}

/// Which activity wins when blocks overlap: work, school, social, hobby, errands, rest.
pub open spec fn activity_priority(a: RoutineActivity) -> u8 {
    match a {
        RoutineActivity::Work => 5,
        RoutineActivity::School => 4,
        RoutineActivity::Social => 3,
        RoutineActivity::Hobby => 2,
        RoutineActivity::Errands => 1,
        RoutineActivity::Rest => 0,
    }
}

impl RoutineActivity {
    pub fn priority(self) -> (p: u8)
        ensures
            p == activity_priority(self),
    {
        match self {
            RoutineActivity::Work => 5,
            RoutineActivity::School => 4,
            RoutineActivity::Social => 3,
            RoutineActivity::Hobby => 2,
            RoutineActivity::Errands => 1,
            RoutineActivity::Rest => 0,
        }
    }
}

impl RoutineBlock {
    pub fn contains(&self, hour: u8) -> (b: bool)
        ensures
            b == covers(*self, hour),
    {
        let end: u8 = if self.start_hour as u16 + self.duration as u16 <= 255 {
            self.start_hour + self.duration
        } else {
            255
        };
        hour >= self.start_hour && hour < end
    }
}

/// Among the blocks covering the hour, the activity of the first one of highest
/// priority.
pub open spec fn busiest_activity(blocks: Seq<RoutineBlock>, hour: u8) -> Option<RoutineActivity>
    decreases blocks.len(),
{
    if blocks.len() == 0 {
        None
    } else {
        let prev = busiest_activity(blocks.drop_last(), hour);
        let b = blocks.last();
        if covers(b, hour) && (prev is None || activity_priority(b.activity) > activity_priority(prev->0)) {
            Some(b.activity)
        } else {
            prev
        }
    }
}

/// The activity at an hour: the busiest one covering it, or rest.
pub open spec fn activity_for_hour(blocks: Seq<RoutineBlock>, hour: u8) -> RoutineActivity {
    match busiest_activity(blocks, hour) {
        Some(a) => a,
        None => RoutineActivity::Rest,
    }
}

/// The earliest start among the blocks of an activity.
pub open spec fn earliest_start(blocks: Seq<RoutineBlock>, activity: RoutineActivity) -> Option<u8>
    decreases blocks.len(),
{
    if blocks.len() == 0 {
        None
    } else {
        let prev = earliest_start(blocks.drop_last(), activity);
        let b = blocks.last();
        if b.activity == activity && (prev is None || b.start_hour < prev->0) {
            Some(b.start_hour)
        } else {
            prev
        }
    }
}

impl Default for RoutineSchedule {
    fn default() -> (s: RoutineSchedule)
        ensures
            s.blocks@.len() == 0,
    {
        RoutineSchedule { blocks: Vec::new() }
    }
}

impl RoutineSchedule {
    pub fn activity_at(&self, hour: u8) -> (a: RoutineActivity)
        ensures
            a == activity_for_hour(self.blocks@, hour),
    {
        let mut selected: Option<RoutineActivity> = None;
        let mut i: usize = 0;
        assert(self.blocks@.take(0) =~= Seq::<RoutineBlock>::empty());
        while i < self.blocks.len()
            invariant
                i <= self.blocks@.len(),
                selected == busiest_activity(self.blocks@.take(i as int), hour),
            decreases self.blocks@.len() - i,
        {
            assert(self.blocks@.take(i + 1).drop_last() =~= self.blocks@.take(i as int));
            let block = self.blocks[i];
            if block.contains(hour) {
                let priority = block.activity.priority();
                let better = match selected {
                    Some(best) => priority > best.priority(),
                    None => true,
                };
                if better {
                    selected = Some(block.activity);
                }
            }
            i = i + 1;
        }
        assert(self.blocks@.take(i as int) =~= self.blocks@);
        match selected {
            Some(a) => a,
            None => RoutineActivity::Rest,
        }
    }

    pub fn first_hour_for(&self, activity: RoutineActivity) -> (h: Option<u8>)
        ensures
            h == earliest_start(self.blocks@, activity),
    {
        let mut best: Option<u8> = None;
        let mut i: usize = 0;
        assert(self.blocks@.take(0) =~= Seq::<RoutineBlock>::empty());
        while i < self.blocks.len()
            invariant
                i <= self.blocks@.len(),
                best == earliest_start(self.blocks@.take(i as int), activity),
            decreases self.blocks@.len() - i,
        {
            assert(self.blocks@.take(i + 1).drop_last() =~= self.blocks@.take(i as int));
            let block = self.blocks[i];
            if block.activity == activity {
                let earlier = match best {
                    Some(h) => block.start_hour < h,
                    None => true,
                };
                if earlier {
                    best = Some(block.start_hour);
                }
            }
            i = i + 1;
        }
        assert(self.blocks@.take(i as int) =~= self.blocks@);
        best
    }

    /// Adds a block, unless it lasts no time at all.
    pub fn push_block(&mut self, start_hour: u8, duration: u8, activity: RoutineActivity)
        ensures
            duration == 0 ==> final(self).blocks@ == old(self).blocks@,
            duration != 0 ==> final(self).blocks@ == old(self).blocks@.push(
                RoutineBlock { start_hour, duration, activity },
            ),
    {
        if duration == 0 {
            return;
        }
        self.blocks.push(RoutineBlock { start_hour, duration, activity });
    }
}

pub open spec fn block(start_hour: u8, duration: u8, activity: RoutineActivity) -> RoutineBlock {
    RoutineBlock { start_hour, duration, activity }
}

/// The school hours of an education record.
pub open spec fn school_blocks(education: EducationTrack) -> Seq<RoutineBlock> {
    if education.is_enrolled {
        match education.level {
            EducationLevel::Primary | EducationLevel::Secondary => seq![block(8, 6, RoutineActivity::School)],
            EducationLevel::Tertiary => seq![block(10, 4, RoutineActivity::School)],
            _ => Seq::empty(),
        }
    } else {
        Seq::empty()
    }
}

/// The working hours: a full day from nine, or four hours from four in the afternoon
/// for students and the young; part-time work is four hours from noon, or from four
/// for students.
pub open spec fn work_blocks(job_status: JobStatus, education: EducationTrack, life: LifeState) -> Seq<RoutineBlock> {
    match job_status {
        JobStatus::Employed => if education.is_enrolled || life.life_stage == LifeStage::Child
            || life.life_stage == LifeStage::Teen {
            seq![block(16, 4, RoutineActivity::Work)]
        } else {
            seq![block(9, 8, RoutineActivity::Work)]
        },
        JobStatus::PartTime => seq![block(if education.is_enrolled { 16 } else { 12 }, 4, RoutineActivity::Work)],
        JobStatus::Unemployed => Seq::empty(),
    }
}

/// A day's routine: sleep, errands, school and work as they apply, then a hobby,
/// company and rest in the evening.
pub open spec fn routine_blocks(job_status: JobStatus, education: EducationTrack, life: LifeState) -> Seq<RoutineBlock> {
    seq![
        block(0, 6, RoutineActivity::Rest),
        block(6, 1, RoutineActivity::Errands),
        block(7, 1, RoutineActivity::Rest),
    ] + school_blocks(education) + work_blocks(job_status, education, life) + seq![
        block(19, 2, RoutineActivity::Hobby),
        block(21, 1, RoutineActivity::Social),
        block(22, 2, RoutineActivity::Rest),
    ]
}

pub fn build_routine_schedule(job_status: JobStatus, education: &EducationTrack, life: &LifeState) -> (s: RoutineSchedule)
    ensures
        s.blocks@ == routine_blocks(job_status, *education, *life),
{
    let mut schedule = RoutineSchedule::default();
    schedule.push_block(0, 6, RoutineActivity::Rest);
    schedule.push_block(6, 1, RoutineActivity::Errands);
    schedule.push_block(7, 1, RoutineActivity::Rest);
    let ghost base = schedule.blocks@;
    if education.is_enrolled {
        match education.level {
            EducationLevel::Primary | EducationLevel::Secondary => {
                schedule.push_block(8, 6, RoutineActivity::School);
            },
            EducationLevel::Tertiary => {
                schedule.push_block(10, 4, RoutineActivity::School);
            },
            _ => {},
        }
    }
    assert(schedule.blocks@ =~= base + school_blocks(*education));
    let ghost with_school = schedule.blocks@;
    match job_status {
        JobStatus::Employed => {
            let young = match life.life_stage {
                LifeStage::Child | LifeStage::Teen => true,
                _ => false,
            };
            if education.is_enrolled || young {
                schedule.push_block(16, 4, RoutineActivity::Work);
            } else {
                schedule.push_block(9, 8, RoutineActivity::Work);
            }
        },
        JobStatus::PartTime => {
            let start: u8 = if education.is_enrolled { 16 } else { 12 };
            schedule.push_block(start, 4, RoutineActivity::Work);
        },
        JobStatus::Unemployed => {},
    }
    assert(schedule.blocks@ =~= with_school + work_blocks(job_status, *education, *life));
    schedule.push_block(19, 2, RoutineActivity::Hobby);
    schedule.push_block(21, 1, RoutineActivity::Social);
    schedule.push_block(22, 2, RoutineActivity::Rest);
    assert(schedule.blocks@ =~= routine_blocks(job_status, *education, *life));
    schedule
}

} // verus!

use vstd::prelude::*;

verus! {

/// The capacity figures of one power sample that the health history keeps.
#[derive(Clone, Copy, Debug, PartialEq, Eq, Structural)]
pub struct BatteryHealthSample {
    /// Full charge capacity, in mAh; zero or less when the read failed.
    pub max_capacity: i32,
    /// Design capacity, in mAh; zero or less when the read failed.
    pub design_capacity: i32,
    pub cycle_count: i32,
}

/// One row to write to the battery health history.
#[derive(Clone, Copy, Debug, PartialEq, Eq, Structural)]
pub struct HealthSnapshot {
    pub max_capacity: i64,
    pub design_capacity: i64,
    pub cycle_count: i64,
}

impl BatteryHealthSample {
    /// Whether the sample holds capacities worth recording; when a capacity
    /// read failed there is nothing useful to record, and the date need not
    /// even be looked up.
    pub fn is_usable(&self) -> (usable: bool)
        ensures
            usable == sample_is_usable(*self),
            usable == (self.max_capacity > 0 && self.design_capacity > 0),
    {
        self.max_capacity > 0 && self.design_capacity > 0
    }
}

/// Whether a sample holds capacities worth recording.
pub open spec fn sample_is_usable(s: BatteryHealthSample) -> bool {
    s.max_capacity > 0 && s.design_capacity > 0
}

/// The snapshot that records `s`.
pub open spec fn snapshot_of(s: BatteryHealthSample) -> HealthSnapshot {
    HealthSnapshot {
        max_capacity: s.max_capacity as i64,
        design_capacity: s.design_capacity as i64,
        cycle_count: s.cycle_count as i64,
    }
}

/// One step of the once-a-day guard for a usable sample: from the day last
/// written (if any) and today's date, to the day last written afterwards and
/// whether a snapshot is due.
pub open spec fn guard_step(last: Option<Seq<char>>, today: Seq<char>) -> (Option<Seq<char>>, bool) {
    if last == Some(today) {
        (last, false)
    } else {
        (Some(today), true)
    }
}

/// Keeps the battery health history to at most one snapshot per day. It is
/// called on every power tick, which runs every couple of seconds; the guard
/// spares the database a write on each of them.
pub struct HealthRecorder {
    last_written_day: Option<String>,
}

impl HealthRecorder {
    /// The day of the last snapshot, as a sequence of characters.
    pub closed spec fn last_day(&self) -> Option<Seq<char>> {
        match self.last_written_day {
            Some(d) => Some(d@),
            None => None,
        }
    }

    /// A recorder that has written nothing yet.
    pub fn new() -> (r: Self)
        ensures
            r.last_day() == None::<Seq<char>>,
    {
        HealthRecorder { last_written_day: None }
    }

    /// Decides whether the sample `data`, taken on the day `today`, is to be
    /// written. A sample with a missing capacity is never written and leaves
    /// the recorder as it was. Otherwise the first sample of each day is
    /// written: the recorder remembers the day, and later samples of the
    /// same day are not written.
    pub fn record_on(&mut self, data: &BatteryHealthSample, today: String) -> (snapshot: Option<HealthSnapshot>)
        ensures
            !sample_is_usable(*data) ==> snapshot.is_none() && final(self).last_day() == old(self).last_day(),
            sample_is_usable(*data) ==> {
                &&& final(self).last_day() == guard_step(old(self).last_day(), today@).0
                &&& snapshot.is_some() == guard_step(old(self).last_day(), today@).1
            },
            snapshot matches Some(s) ==> s == snapshot_of(*data),
            snapshot matches Some(s) ==> s.max_capacity == data.max_capacity as i64 && s.design_capacity
                == data.design_capacity as i64 && s.cycle_count == data.cycle_count as i64,
            data.max_capacity <= 0 || data.design_capacity <= 0 ==> snapshot is None && final(self).last_day()
                == old(self).last_day(),
            data.max_capacity > 0 && data.design_capacity > 0 ==> {
                &&& final(self).last_day() == Some(today@)
                &&& snapshot is Some <==> old(self).last_day() != Some(today@)
            },
    {
        if data.max_capacity <= 0 || data.design_capacity <= 0 {
            return None;
        }
        let same_day = match &self.last_written_day {
            Some(last) => *last == today,
            None => false,
        };
        if same_day {
            return None;
        }
        self.last_written_day = Some(today);
        Some(HealthSnapshot {
            max_capacity: data.max_capacity as i64,
            design_capacity: data.design_capacity as i64,
            cycle_count: data.cycle_count as i64,
        })
    }
}

/// What the spec functions of the recorder say, in the sample's fields: a
/// sample is usable exactly when both capacities are positive, whatever their
/// relation to each other; a snapshot keeps the three figures unchanged; and
/// the guard always remembers today, writing exactly when today differs from
/// the day last written.
pub proof fn lemma_health_fields(s: BatteryHealthSample, last: Option<Seq<char>>, today: Seq<char>)
    ensures
        sample_is_usable(s) <==> (s.max_capacity > 0 && s.design_capacity > 0),
        snapshot_of(s).max_capacity == s.max_capacity,
        snapshot_of(s).design_capacity == s.design_capacity,
        snapshot_of(s).cycle_count == s.cycle_count,
        guard_step(last, today).0 == Some(today),
        guard_step(last, today).1 <==> last != Some(today),
{
}

/// At most one snapshot per day: once a snapshot was written on `today`,
/// another usable sample of the same day is not written.
pub proof fn lemma_once_per_day(last: Option<Seq<char>>, today: Seq<char>)
    ensures
        guard_step(last, today).0 == Some(today),
        !guard_step(guard_step(last, today).0, today).1,
        guard_step(guard_step(last, today).0, today).0 == guard_step(last, today).0,
{
}

/// A new day always gets its snapshot.
pub proof fn lemma_new_day_is_written(last: Option<Seq<char>>, today: Seq<char>)
    requires
        last != Some(today),
    ensures
        guard_step(last, today).1,
{
}

} // verus!

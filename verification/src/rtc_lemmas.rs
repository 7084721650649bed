//! What holds of the clock's phases and of the time register's encoding.

use vstd::prelude::*;
use crate::rtc::{
    decoded, hour_tens, hour_units, minute_tens, minute_units, time_word, Command, Phase,
    KEY_FIRST, KEY_SECOND, SEED_TIME,
};

verus! {

/// No two phases share a place in the order.
pub proof fn lemma_rank_one_to_one(p: Phase, q: Phase)
    ensures
        p.rank() == q.rank() <==> p == q,
{
}

/// Each operation leads to the phase that is next in the order. The three
/// exceptions: a phase without an operation stays; a phase that waits stays
/// on the answer no; and the first look at the backup domain skips the
/// unlocking if the domain is open already.
pub proof fn lemma_next_in_order(p: Phase, answer: bool)
    ensures
        p.command() is None ==> p.next(answer) == p,
        p.waits() && !answer ==> p.next(answer) == p,
        p == Phase::DomainProbe && answer ==> p.next(answer) == Phase::OscillatorStart,
        p.command() is Some && !(p.waits() && !answer) && !(p == Phase::DomainProbe && answer)
            ==> p.next(answer).rank() == p.rank() + 1,
{
}

/// Only a read's answer counts: after any other operation the next phase is
/// the same for both answers. The phases that read are the first look at the
/// backup domain and the three phases that wait.
pub proof fn lemma_answer_counts_for_reads_only(p: Phase)
    ensures
        (p.command() matches Some(c) && c.reads()) <==> (p == Phase::DomainProbe || p.waits()),
        !(p.command() matches Some(c) && c.reads()) ==> p.next(true) == p.next(false),
        p.command() matches Some(c) && c.reads() ==> p.next(true) != p.next(false),
{
}

/// The backup domain is written to only while it is known to be open. It
/// counts as open from the read that finds it open until the driver closes
/// it at the end of the bring-up.
pub proof fn lemma_domain_open_for_writes(p: Phase, answer: bool)
    ensures
        p.command() matches Some(c) && c.writes_backup_domain() ==> p.domain_open(),
        !p.domain_open() && p.next(answer).domain_open() ==> p.command() == Some(
            Command::ReadDomainAccess,
        ) && answer,
        p.domain_open() && !p.next(answer).domain_open() ==> p.command() == Some(
            Command::DisableDomainAccess,
        ),
        !Phase::PowerEnable.domain_open(),
        !Phase::Running.domain_open(),
{
}

/// The clock's registers are written only after the key, and the key is
/// its two bytes written one after the other, first byte first.
pub proof fn lemma_keyed_for_clock_registers(p: Phase, answer: bool)
    ensures
        p.command() matches Some(c) && c.writes_clock_register() ==> p.keyed(),
        !p.keyed() && p.next(answer).keyed() ==> p.command() == Some(Command::WriteKey(KEY_SECOND)),
        p.next(answer).command() == Some(Command::WriteKey(KEY_SECOND)) ==> p.command() == Some(
            Command::WriteKey(KEY_FIRST),
        ),
        p.command() == Some(Command::WriteKey(KEY_FIRST)) ==> p.next(answer).command() == Some(
            Command::WriteKey(KEY_SECOND),
        ),
{
}

/// The time is written only in initialization mode, which the clock has
/// confirmed, and initialization mode is left right after.
pub proof fn lemma_init_mode_for_time(p: Phase, answer: bool)
    ensures
        p.command() is Some && p.command()->Some_0 is WriteTime ==> p.in_init(),
        !p.in_init() && p.next(answer).in_init() ==> p.command() == Some(Command::ReadInitConfirmed)
            && answer,
        p.in_init() && !p.next(answer).in_init() ==> p.command() == Some(Command::LeaveInit),
        p.command() == Some(Command::WriteTime(SEED_TIME)) ==> p.next(answer).command() == Some(
            Command::LeaveInit,
        ),
{
}

/// The phases never go back.
pub proof fn lemma_run_never_returns(p: Phase, answers: Seq<bool>)
    ensures
        p.run(answers).rank() >= p.rank(),
    decreases answers.len(),
{
    if answers.len() > 0 {
        lemma_run_never_returns(p, answers.drop_last());
        lemma_next_in_order(p.run(answers.drop_last()), answers.last());
    }
}

/// No phase is left out: whatever the answers, every phase between the first
/// and the last of a run was the phase after some part of the run. The one
/// exception is the unlocking of a backup domain that was open already.
pub proof fn lemma_run_visits(p: Phase, answers: Seq<bool>, q: Phase)
    requires
        p.rank() <= q.rank() <= p.run(answers).rank(),
        q == Phase::DomainUnlock || q == Phase::DomainConfirm ==> p.rank() >= Phase::DomainUnlock.rank(),
    ensures
        exists|n: int| 0 <= n <= answers.len() && #[trigger] p.run(answers.take(n)) == q,
    decreases answers.len(),
{
    if answers.len() == 0 {
        lemma_rank_one_to_one(p, q);
        assert(answers.take(0) =~= answers);
    } else {
        let before = answers.drop_last();
        let r = p.run(before);
        lemma_run_never_returns(p, before);
        if q.rank() <= r.rank() {
            lemma_run_visits(p, before, q);
            let n = choose|n: int| 0 <= n <= before.len() && #[trigger] p.run(before.take(n)) == q;
            assert(before.take(n) =~= answers.take(n));
            assert(p.run(answers.take(n)) == q);
        } else {
            lemma_next_in_order(r, answers.last());
            lemma_rank_one_to_one(r.next(answers.last()), q);
            assert(answers.take(answers.len() as int) =~= answers);
        }
    }
}

/// If the hardware answers yes every time, the bring-up is through after one
/// operation for each phase that is left.
pub proof fn lemma_bring_up_completes(p: Phase, answers: Seq<bool>)
    requires
        !p.sleeping(),
        forall|i: int| 0 <= i < answers.len() ==> answers[i],
        answers.len() >= Phase::Running.rank() - p.rank(),
    ensures
        p.run(answers) == Phase::Running,
{
    lemma_run_with_yes(p, answers);
    lemma_rank_one_to_one(p.run(answers), Phase::Running);
}

proof fn lemma_run_with_yes(p: Phase, answers: Seq<bool>)
    requires
        !p.sleeping(),
        forall|i: int| 0 <= i < answers.len() ==> answers[i],
    ensures
        !p.run(answers).sleeping(),
        p.run(answers).rank() >= p.rank() + answers.len() || p.run(answers) == Phase::Running,
    decreases answers.len(),
{
    if answers.len() > 0 {
        lemma_run_with_yes(p, answers.drop_last());
        lemma_next_in_order(p.run(answers.drop_last()), true);
    }
}

/// There is no way back from the way to standby: whatever is answered, each
/// operation leads one phase on until standby is reached, which six
/// operations do from anywhere on the way.
pub proof fn lemma_sleep_is_final(p: Phase, answers: Seq<bool>)
    requires
        p.sleeping(),
    ensures
        p.run(answers).sleeping(),
        p.run(answers).rank() == if p.rank() + answers.len() < Phase::Standby.rank() {
            p.rank() + answers.len()
        } else {
            Phase::Standby.rank()
        },
        answers.len() >= 6 ==> p.run(answers) == Phase::Standby,
    decreases answers.len(),
{
    if answers.len() > 0 {
        lemma_sleep_is_final(p, answers.drop_last());
        lemma_next_in_order(p.run(answers.drop_last()), answers.last());
    }
    lemma_rank_one_to_one(p.run(answers), Phase::Standby);
}

/// The digits of a time register's word have two bits for the hour's tens,
/// three for the minute's tens and four for the units, so that no word
/// decodes to more than 45:85.
pub proof fn lemma_digit_widths(tr: u32)
    ensures
        hour_tens(tr) <= 3,
        hour_units(tr) <= 15,
        minute_tens(tr) <= 7,
        minute_units(tr) <= 15,
        decoded(tr).0 == 10 * hour_tens(tr) + hour_units(tr) <= 45,
        decoded(tr).1 == 10 * minute_tens(tr) + minute_units(tr) <= 85,
{
    assert(hour_tens(tr) <= 3 && hour_units(tr) <= 15 && minute_tens(tr) <= 7 && minute_units(tr)
        <= 15) by (bit_vector);
}

/// A word whose digits are those of a time of day decodes to an hour of at
/// most 23 and a minute of at most 59.
pub proof fn lemma_decoded_time_of_day(tr: u32)
    requires
        hour_units(tr) <= 9,
        10 * hour_tens(tr) + hour_units(tr) <= 23,
        minute_tens(tr) <= 5,
        minute_units(tr) <= 9,
    ensures
        decoded(tr).0 <= 23,
        decoded(tr).1 <= 59,
        time_word(decoded(tr).0, decoded(tr).1) == tr & 0x003f_7f00,
{
    lemma_digit_widths(tr);
    let (ht, hu, mt, mu) = (hour_tens(tr), hour_units(tr), minute_tens(tr), minute_units(tr));
    assert(ht == (tr >> 20) & 0x3 && hu == (tr >> 16) & 0xf && mt == (tr >> 12) & 0x7 && mu == (tr
        >> 8) & 0xf ==> (ht << 20 | hu << 16 | mt << 12 | mu << 8) == tr & 0x003f_7f00)
        by (bit_vector);
}

/// Reading gives back what was written: the word for a time of day decodes
/// to that time.
pub proof fn lemma_time_word_decodes(hours: u8, mins: u8)
    requires
        hours <= 23,
        mins <= 59,
    ensures
        decoded(time_word(hours, mins)) == (hours, mins),
{
    assert(hours <= 23 && mins <= 59 ==> hour_tens(time_word(hours, mins)) == hours / 10
        && hour_units(time_word(hours, mins)) == hours % 10 && minute_tens(time_word(hours, mins))
        == mins / 10 && minute_units(time_word(hours, mins)) == mins % 10) by (bit_vector);
}

/// The clock is seeded with 23:42.
pub proof fn lemma_seed_time()
    ensures
        SEED_TIME == time_word(23, 42),
        decoded(SEED_TIME) == (23u8, 42u8),
{
    assert(SEED_TIME == time_word(23, 42)) by (bit_vector);
    lemma_time_word_decodes(23, 42);
}

} // verus!

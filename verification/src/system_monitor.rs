//! CPU and GPU load, read out of the text of the host's resource files.
//!
//! The CPU figure is the share of busy time since boot, not the load of the
//! last interval: it is taken from the aggregate counters alone.

use crate::text::{
    chars_of, decimal_text, fields_of, first_line, lemma_decimal_text_parses, line_of,
    parse_number, parse_unsigned, render_decimal, split_fields, trim, trimmed,
};
use vstd::prelude::*;

verus! {

/// The share of the time since boot that was not idle, in percent and rounded
/// down; 0 where no time was counted at all.
pub open spec fn busy_percent(user: nat, nice: nat, system: nat, idle: nat) -> nat {
    let total = user + nice + system + idle;
    if total > 0 {
        ((100 * (total - idle)) / (total as int)) as nat
    } else {
        0
    }
}

/// The CPU usage that the kernel's statistics text `content` gives, if its
/// first line holds the four counters: the line's fields after the first are
/// the user, nice, system and idle times.
pub open spec fn cpu_usage_of(content: Seq<char>) -> Option<nat> {
    let fields = split_fields(first_line(content));
    if fields.len() > 4 {
        match (
            parse_unsigned(fields[1], u64::MAX as nat),
            parse_unsigned(fields[2], u64::MAX as nat),
            parse_unsigned(fields[3], u64::MAX as nat),
            parse_unsigned(fields[4], u64::MAX as nat),
        ) {
            (Some(user), Some(nice), Some(system), Some(idle)) => Some(
                busy_percent(user, nice, system, idle),
            ),
            _ => None,
        }
    } else {
        None
    }
}

/// The GPU usage that the busy-percent text `content` gives: the number it
/// holds between white space.
pub open spec fn gpu_usage_of(content: Seq<char>) -> Option<nat> {
    parse_unsigned(trimmed(content), u32::MAX as nat)
}

/// How a usage is shown: the number and a percent sign, or `N/A` where there
/// is none.
pub open spec fn usage_text(usage: Option<nat>) -> Seq<char> {
    match usage {
        Some(n) => decimal_text(n) + seq!['%'],
        None => seq!['N', '/', 'A'],
    }
}

/// Computes the busy share from the four counters.
pub fn cpu_percent(user: u64, nice: u64, system: u64, idle: u64) -> (percent: u64)
    ensures
        percent == busy_percent(user as nat, nice as nat, system as nat, idle as nat),
        percent <= 100,
{
    let total: u128 = user as u128 + nice as u128 + system as u128 + idle as u128;
    if total > 0 {
        let busy: u128 = total - idle as u128;
        let share: u128 = (100 * busy) / total;
        assert(share <= 100) by (nonlinear_arith)
            requires
                share == (100 * busy) / (total as int),
                0 <= busy <= total,
                total > 0,
        ;
        share as u64
    } else {
        0
    }
}

/// Reads the CPU usage out of the kernel's statistics text.
pub fn cpu_usage(content: &str) -> (usage: Option<u64>)
    ensures
        cpu_usage_of(content@) == match usage {
            Some(n) => Some(n as nat),
            None => None::<nat>,
        },
{
    let chars = chars_of(content);
    let line = line_of(&chars);
    let fields = fields_of(&line);
    if fields.len() > 4 {
        let user = parse_number(&fields[1], u64::MAX);
        let nice = parse_number(&fields[2], u64::MAX);
        let system = parse_number(&fields[3], u64::MAX);
        let idle = parse_number(&fields[4], u64::MAX);
        match (user, nice, system, idle) {
            (Some(user), Some(nice), Some(system), Some(idle)) => Some(
                cpu_percent(user, nice, system, idle),
            ),
            _ => None,
        }
    } else {
        None
    }
}

/// Reads the GPU usage out of the busy-percent text.
pub fn gpu_usage(content: &str) -> (usage: Option<u32>)
    ensures
        gpu_usage_of(content@) == match usage {
            Some(n) => Some(n as nat),
            None => None::<nat>,
        },
{
    let chars = chars_of(content);
    let inner = trim(&chars);
    match parse_number(&inner, 0xffff_ffff) {
        Some(n) => Some(n as u32),
        None => None,
    }
}

/// Shows a usage as text.
pub fn format_usage(usage: Option<u64>) -> (text: String)
    ensures
        text@ == usage_text(
            match usage {
                Some(n) => Some(n as nat),
                None => None,
            },
        ),
{
    match usage {
        Some(n) => {
            let mut text = render_decimal(n);
            proof {
                reveal_strlit("%");
            }
            text.append("%");
            assert(text@ =~= decimal_text(n as nat) + seq!['%']);
            text
        },
        None => {
            proof {
                reveal_strlit("N/A");
            }
            let text = String::from_str("N/A");
            assert(text@ =~= seq!['N', '/', 'A']);
            text
        },
    }
}

/// The CPU usage to show, given the text of the kernel's statistics file, or
/// `None` where the file could not be read.
pub fn read_cpu_usage(stat: Option<&str>) -> (reading: String)
    ensures
        reading@ == usage_text(
            match stat {
                Some(content) => cpu_usage_of(content@),
                None => None,
            },
        ),
{
    match stat {
        Some(content) => format_usage(cpu_usage(content)),
        None => format_usage(None),
    }
}

/// The GPU usage to show, given the text of the busy-percent file, or `None`
/// where the file could not be read.
pub fn read_gpu_usage(busy: Option<&str>) -> (reading: String)
    ensures
        reading@ == usage_text(
            match busy {
                Some(content) => gpu_usage_of(content@),
                None => None,
            },
        ),
{
    match busy {
        Some(content) => {
            match gpu_usage(content) {
                Some(n) => format_usage(Some(n as u64)),
                None => format_usage(None),
            }
        },
        None => format_usage(None),
    }
}

/// Whatever the four counters on the first line are, the usage read is their
/// busy share: the part of the total that is not idle, in percent, rounded
/// down. Where all four are zero the usage reads `0%`.
pub proof fn lemma_cpu_usage_of_counters(
    content: Seq<char>,
    user: u64,
    nice: u64,
    system: u64,
    idle: u64,
)
    requires
        split_fields(first_line(content)).len() > 4,
        split_fields(first_line(content))[1] == decimal_text(user as nat),
        split_fields(first_line(content))[2] == decimal_text(nice as nat),
        split_fields(first_line(content))[3] == decimal_text(system as nat),
        split_fields(first_line(content))[4] == decimal_text(idle as nat),
    ensures
        cpu_usage_of(content) == Some(
            busy_percent(user as nat, nice as nat, system as nat, idle as nat),
        ),
        user + nice + system + idle > 0 ==> cpu_usage_of(content) == Some(
            ((100 * (user + nice + system)) / (user + nice + system + idle)) as nat,
        ),
        user + nice + system + idle == 0 ==> usage_text(cpu_usage_of(content)) == seq!['0', '%'],
{
    lemma_decimal_text_parses(user as nat, u64::MAX as nat);
    lemma_decimal_text_parses(nice as nat, u64::MAX as nat);
    lemma_decimal_text_parses(system as nat, u64::MAX as nat);
    lemma_decimal_text_parses(idle as nat, u64::MAX as nat);
    if user + nice + system + idle == 0 {
        assert(decimal_text(0) + seq!['%'] =~= seq!['0', '%']);
    }
}

/// A line with fewer than five fields, or with a counter that is no number,
/// reads as no usage at all, and is shown as `N/A`.
pub proof fn lemma_cpu_usage_of_malformed(content: Seq<char>)
    requires
        split_fields(first_line(content)).len() <= 4 || exists|k: int|
            1 <= k <= 4 && parse_unsigned(
                #[trigger] split_fields(first_line(content))[k],
                u64::MAX as nat,
            ) is None,
    ensures
        cpu_usage_of(content) is None,
        usage_text(cpu_usage_of(content)) == seq!['N', '/', 'A'],
{
}

/// A busy-percent text that holds the number `n` between white space is shown
/// as that number and a percent sign.
pub proof fn lemma_gpu_usage_of_number(content: Seq<char>, n: u32)
    requires
        trimmed(content) == decimal_text(n as nat),
    ensures
        gpu_usage_of(content) == Some(n as nat),
        usage_text(gpu_usage_of(content)) == decimal_text(n as nat) + seq!['%'],
{
    lemma_decimal_text_parses(n as nat, u32::MAX as nat);
}

} // verus!

//! The SQL statements of the tasks queue and the records they return.
use vstd::prelude::*;

use crate::text::hex_digit;
use crate::text::hex_digit_text;

verus! {

/// Removes an acknowledged task: `?1` is the task ID.
pub const DELETE_SQL: &'static str = "\nDELETE FROM tasks_queue\nWHERE task_id = ?1;\n";

/// Adds a task: queue, payload, user to run as, trace context, retries and
/// delay between retries, in seconds.
pub const SUBMIT_SQL: &'static str = "\nINSERT INTO tasks_queue (queue_id, payload, run_as, trace, retries, retry_delay)\nVALUES (?1, ?2, ?3, ?4, ?5, ?6);\n";

/// The statement that claims the next task, up to the list of queues.
pub const NEXT_SQL_HEAD: &'static str = "\nUPDATE tasks_queue\nSET\n    retries = retries - 1,\n    next_retry = unixepoch() + retry_delay\nWHERE task_id IN (\n    SELECT task_id FROM tasks_queue\n    WHERE\n        queue_id IN (";

/// The statement that claims the next task, after the list of queues.
pub const NEXT_SQL_TAIL: &'static str = ") AND\n        retries >= 0 AND\n        (next_retry IS NULL OR next_retry <= unixepoch())\n    ORDER BY task_id ASC\n    LIMIT 1\n)\nRETURNING\n    task_id,\n    queue_id,\n    payload,\n    run_as,\n    trace\n;";

/// A queue name quoted for SQL.
pub open spec fn quoted(q: Seq<char>) -> Seq<char> {
    seq!['"'] + q + seq!['"']
}

/// The queue names quoted and separated by `", "`.
pub open spec fn quoted_list(qs: Seq<Seq<char>>) -> Seq<char>
    decreases qs.len(),
{
    if qs.len() == 0 {
        Seq::empty()
    } else if qs.len() == 1 {
        quoted(qs[0])
    } else {
        quoted_list(qs.drop_last()) + ", "@ + quoted(qs.last())
    }
}

/// The texts of a sequence of strings.
pub open spec fn names(qs: Seq<String>) -> Seq<Seq<char>> {
    qs.map_values(|q: String| q@)
}

/// The statement that claims the next task of the given queues.
pub open spec fn next_task_sql(queues: Seq<String>) -> Seq<char> {
    NEXT_SQL_HEAD@ + quoted_list(names(queues)) + NEXT_SQL_TAIL@
}

/// Build the statement that claims the next task of the given queues.
///
/// A list of queues can't easily be passed as an SQL parameter so the list is
/// written into the statement, each name in double quotes.
pub fn next_sql(queues: &Vec<String>) -> (r: String)
    ensures
        r@ == next_task_sql(queues@),
{
    let mut list = String::new();
    let mut i: usize = 0;
    while i < queues.len()
        invariant
            0 <= i <= queues@.len(),
            list@ == quoted_list(names(queues@).take(i as int)),
        decreases queues@.len() - i,
    {
        proof {
            reveal_strlit(", ");
            reveal_strlit("\"");
        }
        let ghost before = list@;
        let ghost prefix = names(queues@).take(i + 1);
        assert(prefix.drop_last() =~= names(queues@).take(i as int));
        assert(prefix.last() == queues@[i as int]@);
        if i > 0 {
            list.append(", ");
        }
        list.append("\"");
        list.append(queues[i].as_str());
        list.append("\"");
        proof {
            if i == 0 {
                assert(before =~= Seq::<char>::empty());
                assert(list@ =~= quoted(queues@[0]@));
            } else {
                assert(list@ =~= before + ", "@ + quoted(queues@[i as int]@));
            }
        }
        i = i + 1;
    }
    assert(names(queues@).take(queues@.len() as int) =~= names(queues@));
    String::from_str(NEXT_SQL_HEAD).concat(list.as_str()).concat(NEXT_SQL_TAIL)
}

/// The position of a subscribed queue, if the queue is subscribed to.
pub fn subscribed_queue(queues: &Vec<String>, queue_id: &String) -> (r: Option<usize>)
    ensures
        match r {
            Some(i) => i < queues@.len() && queues@[i as int]@ == queue_id@,
            None => forall|i: int| 0 <= i < queues@.len() ==> (#[trigger] queues@[i])@ != queue_id@,
        },
{
    let mut i: usize = 0;
    while i < queues.len()
        invariant
            0 <= i <= queues@.len(),
            forall|k: int| 0 <= k < i ==> (#[trigger] queues@[k])@ != queue_id@,
        decreases queues@.len() - i,
    {
        if queues[i] == *queue_id {
            return Some(i);
        }
        i = i + 1;
    }
    None
}

/// The decimal digits of a natural number.
pub open spec fn digits(n: nat) -> Seq<char>
    decreases n,
{
    if n < 10 {
        seq![hex_digit(n as u8)]
    } else {
        digits(n / 10) + seq![hex_digit((n % 10) as u8)]
    }
}

/// The decimal text of an integer.
pub open spec fn decimal(n: int) -> Seq<char> {
    if n < 0 {
        seq!['-'] + digits((-n) as nat)
    } else {
        digits(n as nat)
    }
}

/// The decimal digits of `n`.
fn digits_text(n: u64) -> (r: String)
    ensures
        r@ == digits(n as nat),
    decreases n,
{
    if n < 10 {
        let d = hex_digit_text(n as u8);
        String::from_str(d)
    } else {
        let head = digits_text(n / 10);
        let d = hex_digit_text((n % 10) as u8);
        head.concat(d)
    }
}

/// Write an integer in decimal.
pub fn decimal_text(n: i64) -> (r: String)
    ensures
        r@ == decimal(n as int),
{
    if n < 0 {
        let magnitude: u64 = if n == i64::MIN {
            9223372036854775808u64
        } else {
            (-n) as u64
        };
        proof {
            reveal_strlit("-");
        }
        String::from_str("-").concat(digits_text(magnitude).as_str())
    } else {
        digits_text(n as u64)
    }
}

/// A task returned by the statement that claims the next task.
#[derive(Debug)]
pub struct SQLReceivedTask {
    pub task_id: String,
    pub queue_id: String,
    pub payload: String,
    pub run_as: Option<String>,
    pub trace: Option<String>,
}

impl SQLReceivedTask {
    /// The task of a returned row; the numeric task ID becomes its decimal text.
    pub fn from_row(task_id: i64, queue_id: String, payload: String, run_as: Option<String>, trace: Option<String>) -> (r: SQLReceivedTask)
        ensures
            r.task_id@ == decimal(task_id as int),
            r.queue_id == queue_id,
            r.payload == payload,
            r.run_as == run_as,
            r.trace == trace,
    {
        SQLReceivedTask { task_id: decimal_text(task_id), queue_id, payload, run_as, trace }
    }
}

} // verus!

# vipc

Inter-process message passing over per-process message queues, with two kinds
of IPC entity:

- queue-based entities, whose receivers are woken by a dispatching task or by
  a notification;
- scheduler-integrated entities, whose queue is an event source of the
  scheduler, which hands out the task that a message is for.

`src/` is the verified library (Verus). It holds the decisions: the entity ids
and their kind byte (`interface`), the routing of messages to their receivers
and the wake-up of waiting receivers (`queue_based`), the tasks and priorities
that an event source hands to the scheduler (`sched_based`), the messages kept
for their receivers (`stash`) and the text of the errors (`text`).

`app/` drives the library: it reaches the shared queue table, sends the
notifications, holds the locks and implements the futures and the event
source trait of the scheduler.

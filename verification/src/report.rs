//! Static assets of the interactive HTML report: its stylesheet and the
//! page template whose `{placeholders}` are filled when a report is made.
use vstd::prelude::*;

use crate::text::{chars_of, decimal, decimal_chars, has_infix, has_suffix, matches_at, occurs_at, string_of};

verus! {

/// The stylesheet of the interactive report.
pub const REPORT_CSS: &'static str = r#"
        :root {
            --jira-blue: #0052CC;
            --jira-blue-light: #DEEBFF;
            --jira-blue-dark: #0747A6;
            --jira-green: #36B37E;
            --jira-green-light: #E3FCEF;
            --jira-yellow: #FFAB00;
            --jira-yellow-light: #FFFAE6;
            --jira-red: #FF5630;
            --jira-red-light: #FFEBE6;
            --jira-purple: #6554C0;
            --jira-purple-light: #EAE6FF;
            --jira-teal: #00B8D9;
            --jira-gray: #42526E;
            --jira-gray-light: #97A0AF;
            --jira-bg: #FAFBFC;
            --jira-border: #DFE1E6;
            --jira-white: #FFFFFF;
        }

        * {
            box-sizing: border-box;
            margin: 0;
            padding: 0;
        }

        body {
            font-family: -apple-system, BlinkMacSystemFont, 'Segoe UI', Roboto, Oxygen, Ubuntu, sans-serif;
            background-color: var(--jira-bg);
            color: var(--jira-gray);
            line-height: 1.5;
        }

        .app {
            min-height: 100vh;
            display: flex;
            flex-direction: column;
        }

        .header {
            background: linear-gradient(135deg, var(--jira-blue), var(--jira-blue-dark));
            color: white;
            padding: 16px 24px;
            position: sticky;
            top: 0;
            z-index: 100;
        }

        .header-content {
            max-width: 1600px;
            margin: 0 auto;
            display: flex;
            justify-content: space-between;
            align-items: center;
        }

        .header h1 {
            font-size: 22px;
            font-weight: 600;
        }

        .header-info {
            display: flex;
            gap: 24px;
            font-size: 14px;
            opacity: 0.9;
        }

        /* タブナビゲーション */
        .tab-nav {
            background: var(--jira-white);
            border-bottom: 1px solid var(--jira-border);
            position: sticky;
            top: 56px;
            z-index: 95;
        }

        .tab-nav-container {
            max-width: 1600px;
            margin: 0 auto;
            display: flex;
            gap: 0;
            overflow-x: auto;
        }

        .tab-btn {
            padding: 14px 24px;
            border: none;
            background: none;
            font-size: 14px;
            font-weight: 500;
            color: var(--jira-gray-light);
            cursor: pointer;
            border-bottom: 3px solid transparent;
            transition: all 0.2s;
            white-space: nowrap;
        }

        .tab-btn:hover {
            color: var(--jira-gray);
            background: var(--jira-bg);
        }

        .tab-btn.active {
            color: var(--jira-blue);
            border-bottom-color: var(--jira-blue);
        }

        .tab-content {
            display: none;
        }

        .tab-content.active {
            display: block;
        }

        .filters-bar {
            background: var(--jira-white);
            border-bottom: 1px solid var(--jira-border);
            padding: 16px 24px;
            position: sticky;
            top: 103px;
            z-index: 90;
        }

        .filters-container {
            max-width: 1600px;
            margin: 0 auto;
            display: flex;
            flex-wrap: wrap;
            gap: 12px;
            align-items: flex-end;
        }

        .filter-group {
            display: flex;
            flex-direction: column;
            gap: 4px;
        }

        .filter-group label {
            font-size: 11px;
            font-weight: 600;
            text-transform: uppercase;
            color: var(--jira-gray-light);
        }

        .filter-group select,
        .filter-group input {
            padding: 8px 12px;
            border: 1px solid var(--jira-border);
            border-radius: 4px;
            font-size: 14px;
            min-width: 140px;
            background: var(--jira-white);
        }

        .filter-group input[type="text"] {
            min-width: 200px;
        }

        .filter-group select:focus,
        .filter-group input:focus {
            outline: none;
            border-color: var(--jira-blue);
            box-shadow: 0 0 0 2px var(--jira-blue-light);
        }

        .filter-actions {
            display: flex;
            gap: 8px;
            margin-left: auto;
        }

        .btn {
            padding: 8px 16px;
            border: none;
            border-radius: 4px;
            font-size: 14px;
            font-weight: 500;
            cursor: pointer;
            transition: all 0.2s;
        }

        .btn-primary {
            background: var(--jira-blue);
            color: white;
        }

        .btn-primary:hover {
            background: var(--jira-blue-dark);
        }

        .btn-secondary {
            background: var(--jira-bg);
            color: var(--jira-gray);
            border: 1px solid var(--jira-border);
        }

        .btn-secondary:hover {
            background: var(--jira-border);
        }

        .btn-icon {
            width: 32px;
            height: 32px;
            border: 1px solid var(--jira-border);
            background: var(--jira-white);
            border-radius: 4px;
            cursor: pointer;
            font-size: 16px;
        }

        .main-content {
            flex: 1;
            padding: 24px;
            max-width: 1600px;
            margin: 0 auto;
            width: 100%;
        }

        .dashboard {
            display: flex;
            flex-direction: column;
            gap: 24px;
        }

        .charts-row {
            display: grid;
            grid-template-columns: repeat(auto-fit, minmax(300px, 1fr));
            gap: 16px;
        }

        .chart-card {
            background: var(--jira-white);
            border-radius: 8px;
            box-shadow: 0 1px 3px rgba(0,0,0,0.1);
            padding: 16px;
            cursor: pointer;
            transition: box-shadow 0.2s;
        }

        .chart-card:hover {
            box-shadow: 0 4px 12px rgba(0,0,0,0.15);
        }

        .chart-card h3 {
            font-size: 14px;
            color: var(--jira-gray);
            margin-bottom: 12px;
            text-transform: uppercase;
            letter-spacing: 0.5px;
        }

        .chart-card canvas {
            max-height: 200px;
        }

        /* 統計カード */
        .stats-grid {
            display: grid;
            grid-template-columns: repeat(auto-fit, minmax(200px, 1fr));
            gap: 16px;
            margin-bottom: 24px;
        }

        .stat-card {
            background: var(--jira-white);
            border-radius: 8px;
            box-shadow: 0 1px 3px rgba(0,0,0,0.1);
            padding: 20px;
            text-align: center;
        }

        .stat-value {
            font-size: 32px;
            font-weight: 600;
            color: var(--jira-blue);
        }

        .stat-value.warning {
            color: var(--jira-yellow);
        }

        .stat-value.danger {
            color: var(--jira-red);
        }

        .stat-value.success {
            color: var(--jira-green);
        }

        .stat-label {
            font-size: 12px;
            color: var(--jira-gray-light);
            text-transform: uppercase;
            margin-top: 4px;
        }

        /* キャリーオーバーバッジ */
        .carryover-badge {
            display: inline-block;
            padding: 2px 6px;
            border-radius: 3px;
            font-size: 10px;
            font-weight: 600;
            background: var(--jira-yellow-light);
            color: #FF8B00;
            margin-left: 8px;
        }

        .issue-list-section {
            background: var(--jira-white);
            border-radius: 8px;
            box-shadow: 0 1px 3px rgba(0,0,0,0.1);
        }

        .section-header {
            display: flex;
            justify-content: space-between;
            align-items: center;
            padding: 16px 20px;
            border-bottom: 1px solid var(--jira-border);
        }

        .section-header h2 {
            font-size: 18px;
            color: var(--jira-gray);
        }

        #filtered-count {
            font-size: 14px;
            font-weight: normal;
            color: var(--jira-gray-light);
        }

        .sort-controls {
            display: flex;
            align-items: center;
            gap: 8px;
        }

        .sort-controls label {
            font-size: 13px;
            color: var(--jira-gray-light);
        }

        .sort-controls select {
            padding: 6px 10px;
            border: 1px solid var(--jira-border);
            border-radius: 4px;
            font-size: 13px;
        }

        .issue-table-container {
            overflow-x: auto;
        }

        .issue-table {
            width: 100%;
            border-collapse: collapse;
            font-size: 14px;
        }

        .issue-table th {
            background: var(--jira-bg);
            text-align: left;
            padding: 12px 16px;
            font-weight: 600;
            color: var(--jira-gray);
            border-bottom: 1px solid var(--jira-border);
            cursor: pointer;
            user-select: none;
            white-space: nowrap;
        }

        .issue-table th:hover {
            background: var(--jira-border);
        }

        .issue-table td {
            padding: 12px 16px;
            border-bottom: 1px solid var(--jira-border);
        }

        .issue-table tr {
            cursor: pointer;
            transition: background 0.1s;
        }

        .issue-table tbody tr:hover {
            background: var(--jira-blue-light);
        }

        .issue-key {
            color: var(--jira-blue);
            font-weight: 500;
        }

        .issue-summary {
            max-width: 400px;
            overflow: hidden;
            text-overflow: ellipsis;
            white-space: nowrap;
        }

        .status-badge, .priority-badge {
            display: inline-block;
            padding: 3px 8px;
            border-radius: 3px;
            font-size: 11px;
            font-weight: 600;
            text-transform: uppercase;
        }

        .status-done { background: var(--jira-green-light); color: #006644; }
        .status-inprogress { background: var(--jira-blue-light); color: var(--jira-blue-dark); }
        .status-todo { background: #DFE1E6; color: var(--jira-gray); }
        .status-review { background: var(--jira-purple-light); color: #403294; }

        .priority-highest { background: var(--jira-red-light); color: #BF2600; }
        .priority-high { background: var(--jira-red-light); color: #DE350B; }
        .priority-medium { background: var(--jira-yellow-light); color: #FF8B00; }
        .priority-low { background: var(--jira-green-light); color: #006644; }
        .priority-lowest { background: #F4F5F7; color: var(--jira-gray); }

        .pagination {
            display: flex;
            justify-content: center;
            align-items: center;
            gap: 8px;
            padding: 16px;
            border-top: 1px solid var(--jira-border);
        }

        .pagination button {
            padding: 6px 12px;
            border: 1px solid var(--jira-border);
            background: var(--jira-white);
            border-radius: 4px;
            cursor: pointer;
            font-size: 13px;
        }

        .pagination button:hover:not(:disabled) {
            background: var(--jira-bg);
        }

        .pagination button:disabled {
            opacity: 0.5;
            cursor: not-allowed;
        }

        .pagination button.active {
            background: var(--jira-blue);
            color: white;
            border-color: var(--jira-blue);
        }

        .modal {
            display: none;
            position: fixed;
            top: 0;
            left: 0;
            right: 0;
            bottom: 0;
            background: rgba(0,0,0,0.5);
            z-index: 1000;
            overflow-y: auto;
            padding: 24px;
        }

        .modal.active {
            display: flex;
            justify-content: center;
            align-items: flex-start;
        }

        .modal-content {
            background: var(--jira-white);
            border-radius: 8px;
            width: 100%;
            max-width: 800px;
            margin-top: 40px;
            box-shadow: 0 8px 32px rgba(0,0,0,0.2);
        }

        .modal-header {
            display: flex;
            justify-content: space-between;
            align-items: center;
            padding: 16px 24px;
            border-bottom: 1px solid var(--jira-border);
        }

        .modal-header h2 {
            color: var(--jira-blue);
            font-size: 18px;
        }

        .modal-close {
            width: 32px;
            height: 32px;
            border: none;
            background: none;
            font-size: 24px;
            cursor: pointer;
            color: var(--jira-gray-light);
            border-radius: 4px;
        }

        .modal-close:hover {
            background: var(--jira-bg);
            color: var(--jira-gray);
        }

        .modal-body {
            padding: 24px;
        }

        .issue-detail h3 {
            font-size: 20px;
            margin-bottom: 16px;
            color: var(--jira-gray);
        }

        .issue-meta {
            display: grid;
            grid-template-columns: repeat(auto-fit, minmax(200px, 1fr));
            gap: 12px;
            margin-bottom: 24px;
        }

        .meta-item {
            display: flex;
            gap: 8px;
        }

        .meta-label {
            font-weight: 600;
            color: var(--jira-gray-light);
            font-size: 13px;
        }

        .change-history h4 {
            font-size: 16px;
            margin-bottom: 16px;
            color: var(--jira-gray);
        }

        .timeline {
            position: relative;
            padding-left: 24px;
            max-height: 400px;
            overflow-y: auto;
        }

        .timeline::before {
            content: '';
            position: absolute;
            left: 8px;
            top: 0;
            bottom: 0;
            width: 2px;
            background: var(--jira-border);
        }

        .timeline-item {
            position: relative;
            padding: 12px 0;
            padding-left: 16px;
            border-bottom: 1px solid var(--jira-border);
        }

        .timeline-item::before {
            content: '';
            position: absolute;
            left: -20px;
            top: 16px;
            width: 10px;
            height: 10px;
            border-radius: 50%;
            background: var(--jira-blue);
            border: 2px solid var(--jira-white);
        }

        .timeline-date {
            font-size: 12px;
            color: var(--jira-gray-light);
            margin-bottom: 4px;
        }

        .timeline-field {
            font-weight: 600;
            color: var(--jira-gray);
        }

        .timeline-change {
            font-size: 13px;
            color: var(--jira-gray-light);
        }

        .timeline-author {
            font-size: 12px;
            color: var(--jira-gray-light);
            margin-top: 4px;
        }

        @media (max-width: 1024px) {
            .charts-row {
                grid-template-columns: repeat(2, 1fr);
            }
        }

        .burndown-section {
            margin-bottom: 8px;
        }

        .chart-card-wide {
            grid-column: 1 / -1;
        }

        .chart-card-wide canvas {
            max-height: 300px;
            width: 100%;
        }

        .chart-header {
            display: flex;
            justify-content: space-between;
            align-items: center;
            margin-bottom: 12px;
            flex-wrap: wrap;
            gap: 12px;
        }

        .chart-header h3 {
            margin-bottom: 0;
        }

        .chart-legend {
            display: flex;
            gap: 16px;
            flex-wrap: wrap;
        }

        .legend-item {
            display: flex;
            align-items: center;
            gap: 6px;
            font-size: 12px;
            color: var(--jira-gray);
        }

        .legend-color {
            display: inline-block;
            width: 12px;
            height: 12px;
            border-radius: 2px;
        }

        /* 日次進捗セクション */
        .daily-progress {
            display: grid;
            grid-template-columns: repeat(3, 1fr);
            gap: 24px;
            margin-bottom: 24px;
        }

        .progress-column {
            background: var(--jira-white);
            border-radius: 8px;
            box-shadow: 0 1px 3px rgba(0,0,0,0.1);
            padding: 16px;
        }

        .progress-column h3 {
            font-size: 14px;
            color: var(--jira-gray);
            margin-bottom: 16px;
            padding-bottom: 8px;
            border-bottom: 2px solid var(--jira-border);
        }

        .progress-column.yesterday h3 {
            border-bottom-color: var(--jira-green);
        }

        .progress-column.today h3 {
            border-bottom-color: var(--jira-blue);
        }

        .progress-column.blockers h3 {
            border-bottom-color: var(--jira-red);
        }

        .progress-list {
            list-style: none;
        }

        .progress-list li {
            padding: 8px 0;
            border-bottom: 1px solid var(--jira-border);
            font-size: 13px;
        }

        .progress-list li:last-child {
            border-bottom: none;
        }

        /* バグ経過日数 */
        .age-badge {
            display: inline-block;
            padding: 2px 6px;
            border-radius: 3px;
            font-size: 10px;
            font-weight: 600;
            margin-left: 8px;
        }

        .age-new { background: var(--jira-green-light); color: #006644; }
        .age-moderate { background: var(--jira-yellow-light); color: #FF8B00; }
        .age-old { background: var(--jira-red-light); color: #BF2600; }

        @media (max-width: 768px) {
            .header-content {
                flex-direction: column;
                gap: 8px;
                text-align: center;
            }

            .tab-nav-container {
                padding: 0 16px;
            }

            .tab-btn {
                padding: 12px 16px;
                font-size: 13px;
            }

            .filters-container {
                flex-direction: column;
            }

            .filter-group {
                width: 100%;
            }

            .filter-group select,
            .filter-group input {
                width: 100%;
            }

            .filter-actions {
                width: 100%;
                margin-left: 0;
            }

            .charts-row {
                grid-template-columns: 1fr;
            }

            .daily-progress {
                grid-template-columns: 1fr;
            }

            .section-header {
                flex-direction: column;
                gap: 12px;
            }

            .issue-table {
                font-size: 12px;
            }

            .issue-summary {
                max-width: 150px;
            }

            .chart-header {
                flex-direction: column;
                align-items: flex-start;
            }
        }
    "#;

/// The page template of the interactive report. It holds the placeholders
/// `{date}`, `{generated_at}`, `{total_issues}`, `{css}`, `{json_data}` and
/// `{js}`.
pub const REPORT_HTML_TEMPLATE: &'static str = r#"<!DOCTYPE html>
<html lang="ja">
<head>
    <meta charset="UTF-8">
    <meta name="viewport" content="width=device-width, initial-scale=1.0">
    <title>JIRA Interactive Report - {date}</title>
    <style>
{css}
    </style>
</head>
<body>
    <div class="app">
        <header class="header">
            <div class="header-content">
                <h1>JIRA Interactive Report</h1>
                <div class="header-info">
                    <span id="generated-at">Generated: {generated_at}</span>
                    <span id="total-issues">Total: {total_issues} issues</span>
                </div>
            </div>
        </header>

        <!-- タブナビゲーション -->
        <nav class="tab-nav">
            <div class="tab-nav-container">
                <button class="tab-btn active" data-tab="daily-scrum">デイリースクラム</button>
                <button class="tab-btn" data-tab="sprint-planning">スプリント計画</button>
                <button class="tab-btn" data-tab="sprint-board">スプリントボード</button>
                <button class="tab-btn" data-tab="bug-tracker">バグトラッカー</button>
                <button class="tab-btn" data-tab="retrospective">振り返り</button>
                <button class="tab-btn" data-tab="trends">トレンド</button>
            </div>
        </nav>

        <!-- フィルターバー -->
        <nav class="filters-bar">
            <div class="filters-container">
                <div class="filter-group">
                    <label for="project-filter">プロジェクト</label>
                    <select id="project-filter">
                        <option value="">すべて</option>
                    </select>
                </div>
                <div class="filter-group">
                    <label for="status-filter">ステータス</label>
                    <select id="status-filter">
                        <option value="">すべて</option>
                    </select>
                </div>
                <div class="filter-group">
                    <label for="priority-filter">優先度</label>
                    <select id="priority-filter">
                        <option value="">すべて</option>
                    </select>
                </div>
                <div class="filter-group">
                    <label for="assignee-filter">担当者</label>
                    <select id="assignee-filter">
                        <option value="">すべて</option>
                    </select>
                </div>
                <div class="filter-group">
                    <label for="type-filter">タイプ</label>
                    <select id="type-filter">
                        <option value="">すべて</option>
                    </select>
                </div>
                <div class="filter-group">
                    <label for="sprint-filter">スプリント</label>
                    <select id="sprint-filter">
                        <option value="">すべて</option>
                    </select>
                </div>
                <div class="filter-group">
                    <label for="date-from">開始日</label>
                    <input type="date" id="date-from">
                </div>
                <div class="filter-group">
                    <label for="date-to">終了日</label>
                    <input type="date" id="date-to">
                </div>
                <div class="filter-group">
                    <label for="search-input">検索</label>
                    <input type="text" id="search-input" placeholder="チケットを検索...">
                </div>
                <div class="filter-actions">
                    <button id="clear-filters" class="btn btn-secondary">クリア</button>
                    <button id="export-csv" class="btn btn-primary">CSV出力</button>
                </div>
            </div>
        </nav>

        <main class="main-content">
            <p id="filtered-count" style="margin-bottom: 16px; color: #97A0AF;"></p>

            <!-- デイリースクラムタブ -->
            <div id="tab-daily-scrum" class="tab-content active">
                <div class="stats-grid">
                    <div class="stat-card">
                        <div class="stat-value success" id="daily-completed-count">0</div>
                        <div class="stat-label">昨日完了</div>
                    </div>
                    <div class="stat-card">
                        <div class="stat-value" id="daily-inprogress-count">0</div>
                        <div class="stat-label">進行中</div>
                    </div>
                    <div class="stat-card">
                        <div class="stat-value danger" id="daily-blockers-count">0</div>
                        <div class="stat-label">ブロッカー</div>
                    </div>
                </div>

                <div class="daily-progress">
                    <div class="progress-column yesterday">
                        <h3>昨日完了したこと</h3>
                        <ul class="progress-list" id="yesterday-list"></ul>
                    </div>
                    <div class="progress-column today">
                        <h3>今日やること</h3>
                        <ul class="progress-list" id="today-list"></ul>
                    </div>
                    <div class="progress-column blockers">
                        <h3>ブロッカー・課題</h3>
                        <ul class="progress-list" id="blockers-list"></ul>
                    </div>
                </div>
            </div>

            <!-- スプリント計画タブ -->
            <div id="tab-sprint-planning" class="tab-content">
                <div class="stats-grid">
                    <div class="stat-card">
                        <div class="stat-value" id="backlog-total">0</div>
                        <div class="stat-label">バックログ総数</div>
                    </div>
                    <div class="stat-card">
                        <div class="stat-value danger" id="backlog-bugs">0</div>
                        <div class="stat-label">バグ</div>
                    </div>
                    <div class="stat-card">
                        <div class="stat-value success" id="backlog-stories">0</div>
                        <div class="stat-label">ストーリー</div>
                    </div>
                </div>

                <div class="issue-list-section">
                    <div class="section-header">
                        <h2>バックログ（スプリント未設定）</h2>
                    </div>
                    <div class="issue-table-container">
                        <table class="issue-table">
                            <thead>
                                <tr>
                                    <th>Key</th>
                                    <th>概要</th>
                                    <th>優先度</th>
                                    <th>タイプ</th>
                                    <th>担当者</th>
                                    <th>作成日</th>
                                </tr>
                            </thead>
                            <tbody id="backlog-tbody"></tbody>
                        </table>
                    </div>
                </div>
            </div>

            <!-- スプリントボードタブ -->
            <div id="tab-sprint-board" class="tab-content">
                <h2 style="margin-bottom: 16px;">現在のスプリント: <span id="current-sprint-name">-</span></h2>

                <div class="stats-grid">
                    <div class="stat-card">
                        <div class="stat-value" id="sprint-total">0</div>
                        <div class="stat-label">総チケット数</div>
                    </div>
                    <div class="stat-card">
                        <div class="stat-value success" id="sprint-done">0</div>
                        <div class="stat-label">完了</div>
                    </div>
                    <div class="stat-card">
                        <div class="stat-value" id="sprint-inprogress">0</div>
                        <div class="stat-label">進行中</div>
                    </div>
                    <div class="stat-card">
                        <div class="stat-value" id="sprint-todo">0</div>
                        <div class="stat-label">未着手</div>
                    </div>
                    <div class="stat-card">
                        <div class="stat-value warning" id="sprint-carryover">0</div>
                        <div class="stat-label">キャリーオーバー</div>
                    </div>
                </div>

                <div class="chart-card chart-card-wide" style="margin-bottom: 24px;">
                    <div class="chart-header">
                        <h3>スプリントバーンダウン</h3>
                        <div class="chart-legend">
                            <span class="legend-item"><span class="legend-color" style="background:#DFE1E6"></span>理想線</span>
                            <span class="legend-item"><span class="legend-color" style="background:#FF5630"></span>実績</span>
                        </div>
                    </div>
                    <canvas id="sprint-burndown-chart"></canvas>
                </div>

                <div class="issue-list-section">
                    <div class="section-header">
                        <h2>スプリントチケット</h2>
                    </div>
                    <div class="issue-table-container">
                        <table class="issue-table">
                            <thead>
                                <tr>
                                    <th>Key</th>
                                    <th>概要</th>
                                    <th>ステータス</th>
                                    <th>優先度</th>
                                    <th>担当者</th>
                                </tr>
                            </thead>
                            <tbody id="sprint-tbody"></tbody>
                        </table>
                    </div>
                </div>
            </div>

            <!-- バグトラッカータブ -->
            <div id="tab-bug-tracker" class="tab-content">
                <div class="stats-grid">
                    <div class="stat-card">
                        <div class="stat-value" id="bug-total">0</div>
                        <div class="stat-label">バグ総数</div>
                    </div>
                    <div class="stat-card">
                        <div class="stat-value danger" id="bug-open">0</div>
                        <div class="stat-label">未解決</div>
                    </div>
                    <div class="stat-card">
                        <div class="stat-value danger" id="bug-critical">0</div>
                        <div class="stat-label">クリティカル</div>
                    </div>
                    <div class="stat-card">
                        <div class="stat-value warning" id="bug-old">0</div>
                        <div class="stat-label">30日以上経過</div>
                    </div>
                </div>

                <div class="charts-row" style="margin-bottom: 24px;">
                    <div class="chart-card">
                        <h3>優先度別バグ</h3>
                        <canvas id="bug-priority-chart"></canvas>
                    </div>
                </div>

                <div class="issue-list-section">
                    <div class="section-header">
                        <h2>未解決バグ一覧</h2>
                    </div>
                    <div class="issue-table-container">
                        <table class="issue-table">
                            <thead>
                                <tr>
                                    <th>Key</th>
                                    <th>概要</th>
                                    <th>ステータス</th>
                                    <th>優先度</th>
                                    <th>担当者</th>
                                    <th>経過日数</th>
                                </tr>
                            </thead>
                            <tbody id="bug-tbody"></tbody>
                        </table>
                    </div>
                </div>
            </div>

            <!-- 振り返りタブ -->
            <div id="tab-retrospective" class="tab-content">
                <h2 style="margin-bottom: 16px;">スプリント: <span id="retro-sprint-name">-</span></h2>

                <div class="stats-grid">
                    <div class="stat-card">
                        <div class="stat-value success" id="retro-completed">0</div>
                        <div class="stat-label">完了チケット</div>
                    </div>
                    <div class="stat-card">
                        <div class="stat-value" id="retro-velocity">0</div>
                        <div class="stat-label">ベロシティ（チケット数）</div>
                    </div>
                    <div class="stat-card">
                        <div class="stat-value danger" id="retro-bugs-found">0</div>
                        <div class="stat-label">発生バグ</div>
                    </div>
                    <div class="stat-card">
                        <div class="stat-value warning" id="retro-carryover-next">0</div>
                        <div class="stat-label">次スプリントへ持越</div>
                    </div>
                </div>

                <div class="charts-row" style="margin-bottom: 24px;">
                    <div class="chart-card">
                        <h3>完了状況</h3>
                        <canvas id="retro-completion-chart"></canvas>
                    </div>
                </div>

                <div class="issue-list-section">
                    <div class="section-header">
                        <h2>担当者別パフォーマンス</h2>
                    </div>
                    <div class="issue-table-container">
                        <table class="issue-table">
                            <thead>
                                <tr>
                                    <th>担当者</th>
                                    <th>割当数</th>
                                    <th>完了数</th>
                                    <th>完了率</th>
                                </tr>
                            </thead>
                            <tbody id="retro-assignee-tbody"></tbody>
                        </table>
                    </div>
                </div>
            </div>

            <!-- トレンドタブ -->
            <div id="tab-trends" class="tab-content">
                <div class="stats-grid">
                    <div class="stat-card">
                        <div class="stat-value" id="trend-total-created">0</div>
                        <div class="stat-label">総作成数</div>
                    </div>
                    <div class="stat-card">
                        <div class="stat-value success" id="trend-total-resolved">0</div>
                        <div class="stat-label">総解決数</div>
                    </div>
                    <div class="stat-card">
                        <div class="stat-value" id="trend-avg-per-month">0</div>
                        <div class="stat-label">月平均作成数</div>
                    </div>
                    <div class="stat-card">
                        <div class="stat-value success" id="trend-resolution-rate">0%</div>
                        <div class="stat-label">解決率</div>
                    </div>
                </div>

                <div class="chart-card chart-card-wide" style="margin-bottom: 24px;">
                    <div class="chart-header">
                        <h3>月別チケット推移</h3>
                        <div class="chart-legend">
                            <span class="legend-item"><span class="legend-color" style="background:#0052CC"></span>作成</span>
                            <span class="legend-item"><span class="legend-color" style="background:#36B37E"></span>解決</span>
                        </div>
                    </div>
                    <canvas id="trends-chart"></canvas>
                </div>

                <div class="charts-row">
                    <div class="chart-card">
                        <h3>タイプ別分布</h3>
                        <canvas id="type-trends-chart"></canvas>
                    </div>
                </div>
            </div>
        </main>

        <!-- モーダル -->
        <div class="modal" id="issue-modal">
            <div class="modal-content">
                <div class="modal-header">
                    <h2 id="modal-issue-key"></h2>
                    <button class="modal-close" id="modal-close">&times;</button>
                </div>
                <div class="modal-body">
                    <div class="issue-detail">
                        <h3 id="modal-issue-summary"></h3>
                        <div class="issue-meta">
                            <div class="meta-item">
                                <span class="meta-label">ステータス:</span>
                                <span id="modal-status" class="status-badge"></span>
                            </div>
                            <div class="meta-item">
                                <span class="meta-label">優先度:</span>
                                <span id="modal-priority" class="priority-badge"></span>
                            </div>
                            <div class="meta-item">
                                <span class="meta-label">担当者:</span>
                                <span id="modal-assignee"></span>
                            </div>
                            <div class="meta-item">
                                <span class="meta-label">報告者:</span>
                                <span id="modal-reporter"></span>
                            </div>
                            <div class="meta-item">
                                <span class="meta-label">タイプ:</span>
                                <span id="modal-type"></span>
                            </div>
                            <div class="meta-item">
                                <span class="meta-label">スプリント:</span>
                                <span id="modal-sprint"></span>
                            </div>
                            <div class="meta-item">
                                <span class="meta-label">コンポーネント:</span>
                                <span id="modal-components"></span>
                            </div>
                            <div class="meta-item">
                                <span class="meta-label">ラベル:</span>
                                <span id="modal-labels"></span>
                            </div>
                            <div class="meta-item">
                                <span class="meta-label">作成日:</span>
                                <span id="modal-created"></span>
                            </div>
                            <div class="meta-item">
                                <span class="meta-label">更新日:</span>
                                <span id="modal-updated"></span>
                            </div>
                        </div>
                    </div>
                    <div class="change-history">
                        <h4>変更履歴</h4>
                        <div id="history-timeline" class="timeline"></div>
                    </div>
                </div>
            </div>
        </div>
    </div>

    <script>
const REPORT_DATA = {json_data};

{js}
    </script>
</body>
</html>
"#;

/// The stylesheet of the interactive report.
pub fn get_css() -> (r: &'static str)
    ensures
        r@ == REPORT_CSS@,
{
    REPORT_CSS
}

/// The page template of the interactive report.
pub fn get_html_template() -> (r: &'static str)
    ensures
        r@ == REPORT_HTML_TEMPLATE@,
{
    REPORT_HTML_TEMPLATE
}

/// `s` with each occurrence of `p` (left to right, not overlapping)
/// replaced by `r`, as `str::replace` does for a pattern that is not empty.
pub open spec fn replaced(s: Seq<char>, p: Seq<char>, r: Seq<char>) -> Seq<char>
    decreases s.len(),
{
    if p.len() == 0 || s.len() < p.len() {
        s
    } else if s.take(p.len() as int) == p {
        r + replaced(s.skip(p.len() as int), p, r)
    } else {
        seq![s[0]] + replaced(s.skip(1), p, r)
    }
}

/// Executable form of [`replaced`].
pub fn replace_all(s: &str, p: &str, r: &str) -> (out: String)
    requires
        p@.len() > 0,
    ensures
        out@ == replaced(s@, p@, r@),
{
    let c = chars_of(s);
    let pc = chars_of(p);
    let rc = chars_of(r);
    let n = c.len();
    let mut out: Vec<char> = Vec::new();
    let mut i: usize = 0;
    assert(c@.skip(0) =~= c@);
    while i < n
        invariant
            n == c@.len(),
            i <= n,
            pc@.len() > 0,
            out@ + replaced(c@.skip(i as int), pc@, rc@) == replaced(c@, pc@, rc@),
        decreases n - i,
    {
        let ghost rest = c@.skip(i as int);
        if matches_at(&c, &pc, i) {
            proof {
                assert(rest.take(pc@.len() as int) =~= c@.subrange(i as int, i + pc@.len()));
                assert(rest.skip(pc@.len() as int) =~= c@.skip(i + pc@.len()));
                assert(out@ + (rc@ + replaced(c@.skip(i + pc@.len()), pc@, rc@)) =~= (out@ + rc@)
                    + replaced(c@.skip(i + pc@.len()), pc@, rc@));
            }
            let mut piece = rc.clone();
            out.append(&mut piece);
            i = i + pc.len();
        } else {
            proof {
                assert(rest.skip(1) =~= c@.skip(i + 1));
                if rest.len() >= pc@.len() {
                    assert(rest.take(pc@.len() as int) != pc@) by {
                        assert(rest.take(pc@.len() as int) =~= c@.subrange(i as int, i + pc@.len()));
                    }
                } else {
                    assert(rest =~= seq![c@[i as int]] + c@.skip(i + 1));
                }
                assert(out@ + (seq![c@[i as int]] + replaced(c@.skip(i + 1), pc@, rc@)) =~= out@.push(
                    c@[i as int],
                ) + replaced(c@.skip(i + 1), pc@, rc@));
            }
            out.push(c[i]);
            i = i + 1;
        }
    }
    proof {
        assert(c@.skip(n as int) =~= Seq::<char>::empty());
        assert(out@ + Seq::<char>::empty() =~= out@);
    }
    string_of(&out)
}

/// Replacing a pattern that does not occur leaves the text as it was.
pub proof fn lemma_replace_absent(s: Seq<char>, p: Seq<char>, r: Seq<char>)
    requires
        !has_infix(s, p),
    ensures
        replaced(s, p, r) == s,
    decreases s.len(),
{
    if p.len() > 0 && s.len() >= p.len() {
        assert(!occurs_at(s, p, 0));
        assert(s.take(p.len() as int) =~= s.subrange(0, p.len() as int));
        assert(!has_infix(s.skip(1), p)) by {
            if has_infix(s.skip(1), p) {
                let i = choose|i: int| occurs_at(s.skip(1), p, i);
                assert(s.skip(1).subrange(i, i + p.len()) =~= s.subrange(i + 1, i + 1 + p.len()));
                assert(occurs_at(s, p, i + 1));
            }
        }
        lemma_replace_absent(s.skip(1), p, r);
        assert(seq![s[0]] + s.skip(1) =~= s);
    }
}

/// The report page: the template with its date (`%Y-%m-%d`), the time it
/// was made, the number of issues, the stylesheet, the report's data as
/// JSON and its script put in, in that order.
pub open spec fn report_page(
    date: Seq<char>,
    generated_at: Seq<char>,
    total_issues: nat,
    json_data: Seq<char>,
    js: Seq<char>,
) -> Seq<char> {
    replaced(
        replaced(
            replaced(
                replaced(
                    replaced(replaced(REPORT_HTML_TEMPLATE@, "{date}"@, date), "{generated_at}"@, generated_at),
                    "{total_issues}"@,
                    decimal(total_issues),
                ),
                "{css}"@,
                REPORT_CSS@,
            ),
            "{json_data}"@,
            json_data,
        ),
        "{js}"@,
        js,
    )
}

/// Executable form of [`report_page`].
pub fn fill_report_template(
    date: &str,
    generated_at: &str,
    total_issues: u64,
    json_data: &str,
    js: &str,
) -> (r: String)
    ensures
        r@ == report_page(date@, generated_at@, total_issues as nat, json_data@, js@),
        has_suffix(
            r@,
            script_open() + replaced(json_data@, "{js}"@, js@) + script_between() + js@ + script_close(),
        ),
{
    proof {
        lemma_report_data_then_script(date@, generated_at@, total_issues as nat, json_data@, js@);
        reveal_strlit("{date}");
        reveal_strlit("{generated_at}");
        reveal_strlit("{total_issues}");
        reveal_strlit("{css}");
        reveal_strlit("{json_data}");
        reveal_strlit("{js}");
    }
    let count = string_of(&decimal_chars(total_issues));
    let page = replace_all(get_html_template(), "{date}", date);
    let page = replace_all(page.as_str(), "{generated_at}", generated_at);
    let page = replace_all(page.as_str(), "{total_issues}", count.as_str());
    let page = replace_all(page.as_str(), "{css}", get_css());
    let page = replace_all(page.as_str(), "{json_data}", json_data);
    replace_all(page.as_str(), "{js}", js)
}

/// The script at the end of the page template, up to where the report's
/// data goes.
pub open spec fn script_open() -> Seq<char> {
    "\n    <script>\nconst REPORT_DATA = "@
}

/// What stands between the report's data and the script.
pub open spec fn script_between() -> Seq<char> {
    ";\n\n"@
}

/// What follows the script: the end of the page.
pub open spec fn script_close() -> Seq<char> {
    "\n    </script>\n</body>\n</html>\n"@
}

/// The end of the page template: the data, then the script, inside one
/// `<script>` element.
pub open spec fn script_tail() -> Seq<char> {
    script_open() + "{json_data}"@ + script_between() + "{js}"@ + script_close()
}

/// The page template before [`script_tail`].
pub open spec fn template_head() -> Seq<char> {
    REPORT_HTML_TEMPLATE@.take(REPORT_HTML_TEMPLATE@.len() - script_tail().len())
}

/// The page template up to where the date goes, in the page's title.
pub open spec fn title_open() -> Seq<char> {
    "<!DOCTYPE html>\n<html lang=\"ja\">\n<head>\n    <meta charset=\"UTF-8\">\n    <meta name=\"viewport\" content=\"width=device-width, initial-scale=1.0\">\n    <title>JIRA Interactive Report - "@
}

/// What follows the date: the end of the title and the opening of the
/// stylesheet.
pub open spec fn style_open() -> Seq<char> {
    "</title>\n    <style>\n"@
}

/// What follows the stylesheet.
pub open spec fn style_close() -> Seq<char> {
    "\n    </style>"@
}

/// The label before the time the report was made.
pub open spec fn generated_label() -> Seq<char> {
    "<span id=\"generated-at\">Generated: "@
}

/// What stands between the time the report was made and the number of
/// issues.
pub open spec fn total_label() -> Seq<char> {
    "</span>\n                    <span id=\"total-issues\">Total: "@
}

/// What follows the number of issues.
pub open spec fn issues_label() -> Seq<char> {
    " issues</span>"@
}

/// The page template ends with [`script_tail`]. Verus learns the characters
/// of a string literal only from `reveal_strlit` applied to the same
/// literal, which is why the template's text stands here once more.
pub proof fn lemma_template_layout()
    ensures
        REPORT_HTML_TEMPLATE@.len() >= script_tail().len(),
        REPORT_HTML_TEMPLATE@ == template_head() + script_tail(),
        exists|b: Seq<char>, c: Seq<char>|
            REPORT_HTML_TEMPLATE@ == title_open() + "{date}"@ + style_open() + "{css}"@ + style_close()
                + b + generated_label() + "{generated_at}"@ + total_label() + "{total_issues}"@
                + issues_label() + c + script_tail(),
{
    reveal_strlit(r#"<!DOCTYPE html>
<html lang="ja">
<head>
    <meta charset="UTF-8">
    <meta name="viewport" content="width=device-width, initial-scale=1.0">
    <title>JIRA Interactive Report - {date}</title>
    <style>
{css}
    </style>
</head>
<body>
    <div class="app">
        <header class="header">
            <div class="header-content">
                <h1>JIRA Interactive Report</h1>
                <div class="header-info">
                    <span id="generated-at">Generated: {generated_at}</span>
                    <span id="total-issues">Total: {total_issues} issues</span>
                </div>
            </div>
        </header>

        <!-- タブナビゲーション -->
        <nav class="tab-nav">
            <div class="tab-nav-container">
                <button class="tab-btn active" data-tab="daily-scrum">デイリースクラム</button>
                <button class="tab-btn" data-tab="sprint-planning">スプリント計画</button>
                <button class="tab-btn" data-tab="sprint-board">スプリントボード</button>
                <button class="tab-btn" data-tab="bug-tracker">バグトラッカー</button>
                <button class="tab-btn" data-tab="retrospective">振り返り</button>
                <button class="tab-btn" data-tab="trends">トレンド</button>
            </div>
        </nav>

        <!-- フィルターバー -->
        <nav class="filters-bar">
            <div class="filters-container">
                <div class="filter-group">
                    <label for="project-filter">プロジェクト</label>
                    <select id="project-filter">
                        <option value="">すべて</option>
                    </select>
                </div>
                <div class="filter-group">
                    <label for="status-filter">ステータス</label>
                    <select id="status-filter">
                        <option value="">すべて</option>
                    </select>
                </div>
                <div class="filter-group">
                    <label for="priority-filter">優先度</label>
                    <select id="priority-filter">
                        <option value="">すべて</option>
                    </select>
                </div>
                <div class="filter-group">
                    <label for="assignee-filter">担当者</label>
                    <select id="assignee-filter">
                        <option value="">すべて</option>
                    </select>
                </div>
                <div class="filter-group">
                    <label for="type-filter">タイプ</label>
                    <select id="type-filter">
                        <option value="">すべて</option>
                    </select>
                </div>
                <div class="filter-group">
                    <label for="sprint-filter">スプリント</label>
                    <select id="sprint-filter">
                        <option value="">すべて</option>
                    </select>
                </div>
                <div class="filter-group">
                    <label for="date-from">開始日</label>
                    <input type="date" id="date-from">
                </div>
                <div class="filter-group">
                    <label for="date-to">終了日</label>
                    <input type="date" id="date-to">
                </div>
                <div class="filter-group">
                    <label for="search-input">検索</label>
                    <input type="text" id="search-input" placeholder="チケットを検索...">
                </div>
                <div class="filter-actions">
                    <button id="clear-filters" class="btn btn-secondary">クリア</button>
                    <button id="export-csv" class="btn btn-primary">CSV出力</button>
                </div>
            </div>
        </nav>

        <main class="main-content">
            <p id="filtered-count" style="margin-bottom: 16px; color: #97A0AF;"></p>

            <!-- デイリースクラムタブ -->
            <div id="tab-daily-scrum" class="tab-content active">
                <div class="stats-grid">
                    <div class="stat-card">
                        <div class="stat-value success" id="daily-completed-count">0</div>
                        <div class="stat-label">昨日完了</div>
                    </div>
                    <div class="stat-card">
                        <div class="stat-value" id="daily-inprogress-count">0</div>
                        <div class="stat-label">進行中</div>
                    </div>
                    <div class="stat-card">
                        <div class="stat-value danger" id="daily-blockers-count">0</div>
                        <div class="stat-label">ブロッカー</div>
                    </div>
                </div>

                <div class="daily-progress">
                    <div class="progress-column yesterday">
                        <h3>昨日完了したこと</h3>
                        <ul class="progress-list" id="yesterday-list"></ul>
                    </div>
                    <div class="progress-column today">
                        <h3>今日やること</h3>
                        <ul class="progress-list" id="today-list"></ul>
                    </div>
                    <div class="progress-column blockers">
                        <h3>ブロッカー・課題</h3>
                        <ul class="progress-list" id="blockers-list"></ul>
                    </div>
                </div>
            </div>

            <!-- スプリント計画タブ -->
            <div id="tab-sprint-planning" class="tab-content">
                <div class="stats-grid">
                    <div class="stat-card">
                        <div class="stat-value" id="backlog-total">0</div>
                        <div class="stat-label">バックログ総数</div>
                    </div>
                    <div class="stat-card">
                        <div class="stat-value danger" id="backlog-bugs">0</div>
                        <div class="stat-label">バグ</div>
                    </div>
                    <div class="stat-card">
                        <div class="stat-value success" id="backlog-stories">0</div>
                        <div class="stat-label">ストーリー</div>
                    </div>
                </div>

                <div class="issue-list-section">
                    <div class="section-header">
                        <h2>バックログ（スプリント未設定）</h2>
                    </div>
                    <div class="issue-table-container">
                        <table class="issue-table">
                            <thead>
                                <tr>
                                    <th>Key</th>
                                    <th>概要</th>
                                    <th>優先度</th>
                                    <th>タイプ</th>
                                    <th>担当者</th>
                                    <th>作成日</th>
                                </tr>
                            </thead>
                            <tbody id="backlog-tbody"></tbody>
                        </table>
                    </div>
                </div>
            </div>

            <!-- スプリントボードタブ -->
            <div id="tab-sprint-board" class="tab-content">
                <h2 style="margin-bottom: 16px;">現在のスプリント: <span id="current-sprint-name">-</span></h2>

                <div class="stats-grid">
                    <div class="stat-card">
                        <div class="stat-value" id="sprint-total">0</div>
                        <div class="stat-label">総チケット数</div>
                    </div>
                    <div class="stat-card">
                        <div class="stat-value success" id="sprint-done">0</div>
                        <div class="stat-label">完了</div>
                    </div>
                    <div class="stat-card">
                        <div class="stat-value" id="sprint-inprogress">0</div>
                        <div class="stat-label">進行中</div>
                    </div>
                    <div class="stat-card">
                        <div class="stat-value" id="sprint-todo">0</div>
                        <div class="stat-label">未着手</div>
                    </div>
                    <div class="stat-card">
                        <div class="stat-value warning" id="sprint-carryover">0</div>
                        <div class="stat-label">キャリーオーバー</div>
                    </div>
                </div>

                <div class="chart-card chart-card-wide" style="margin-bottom: 24px;">
                    <div class="chart-header">
                        <h3>スプリントバーンダウン</h3>
                        <div class="chart-legend">
                            <span class="legend-item"><span class="legend-color" style="background:#DFE1E6"></span>理想線</span>
                            <span class="legend-item"><span class="legend-color" style="background:#FF5630"></span>実績</span>
                        </div>
                    </div>
                    <canvas id="sprint-burndown-chart"></canvas>
                </div>

                <div class="issue-list-section">
                    <div class="section-header">
                        <h2>スプリントチケット</h2>
                    </div>
                    <div class="issue-table-container">
                        <table class="issue-table">
                            <thead>
                                <tr>
                                    <th>Key</th>
                                    <th>概要</th>
                                    <th>ステータス</th>
                                    <th>優先度</th>
                                    <th>担当者</th>
                                </tr>
                            </thead>
                            <tbody id="sprint-tbody"></tbody>
                        </table>
                    </div>
                </div>
            </div>

            <!-- バグトラッカータブ -->
            <div id="tab-bug-tracker" class="tab-content">
                <div class="stats-grid">
                    <div class="stat-card">
                        <div class="stat-value" id="bug-total">0</div>
                        <div class="stat-label">バグ総数</div>
                    </div>
                    <div class="stat-card">
                        <div class="stat-value danger" id="bug-open">0</div>
                        <div class="stat-label">未解決</div>
                    </div>
                    <div class="stat-card">
                        <div class="stat-value danger" id="bug-critical">0</div>
                        <div class="stat-label">クリティカル</div>
                    </div>
                    <div class="stat-card">
                        <div class="stat-value warning" id="bug-old">0</div>
                        <div class="stat-label">30日以上経過</div>
                    </div>
                </div>

                <div class="charts-row" style="margin-bottom: 24px;">
                    <div class="chart-card">
                        <h3>優先度別バグ</h3>
                        <canvas id="bug-priority-chart"></canvas>
                    </div>
                </div>

                <div class="issue-list-section">
                    <div class="section-header">
                        <h2>未解決バグ一覧</h2>
                    </div>
                    <div class="issue-table-container">
                        <table class="issue-table">
                            <thead>
                                <tr>
                                    <th>Key</th>
                                    <th>概要</th>
                                    <th>ステータス</th>
                                    <th>優先度</th>
                                    <th>担当者</th>
                                    <th>経過日数</th>
                                </tr>
                            </thead>
                            <tbody id="bug-tbody"></tbody>
                        </table>
                    </div>
                </div>
            </div>

            <!-- 振り返りタブ -->
            <div id="tab-retrospective" class="tab-content">
                <h2 style="margin-bottom: 16px;">スプリント: <span id="retro-sprint-name">-</span></h2>

                <div class="stats-grid">
                    <div class="stat-card">
                        <div class="stat-value success" id="retro-completed">0</div>
                        <div class="stat-label">完了チケット</div>
                    </div>
                    <div class="stat-card">
                        <div class="stat-value" id="retro-velocity">0</div>
                        <div class="stat-label">ベロシティ（チケット数）</div>
                    </div>
                    <div class="stat-card">
                        <div class="stat-value danger" id="retro-bugs-found">0</div>
                        <div class="stat-label">発生バグ</div>
                    </div>
                    <div class="stat-card">
                        <div class="stat-value warning" id="retro-carryover-next">0</div>
                        <div class="stat-label">次スプリントへ持越</div>
                    </div>
                </div>

                <div class="charts-row" style="margin-bottom: 24px;">
                    <div class="chart-card">
                        <h3>完了状況</h3>
                        <canvas id="retro-completion-chart"></canvas>
                    </div>
                </div>

                <div class="issue-list-section">
                    <div class="section-header">
                        <h2>担当者別パフォーマンス</h2>
                    </div>
                    <div class="issue-table-container">
                        <table class="issue-table">
                            <thead>
                                <tr>
                                    <th>担当者</th>
                                    <th>割当数</th>
                                    <th>完了数</th>
                                    <th>完了率</th>
                                </tr>
                            </thead>
                            <tbody id="retro-assignee-tbody"></tbody>
                        </table>
                    </div>
                </div>
            </div>

            <!-- トレンドタブ -->
            <div id="tab-trends" class="tab-content">
                <div class="stats-grid">
                    <div class="stat-card">
                        <div class="stat-value" id="trend-total-created">0</div>
                        <div class="stat-label">総作成数</div>
                    </div>
                    <div class="stat-card">
                        <div class="stat-value success" id="trend-total-resolved">0</div>
                        <div class="stat-label">総解決数</div>
                    </div>
                    <div class="stat-card">
                        <div class="stat-value" id="trend-avg-per-month">0</div>
                        <div class="stat-label">月平均作成数</div>
                    </div>
                    <div class="stat-card">
                        <div class="stat-value success" id="trend-resolution-rate">0%</div>
                        <div class="stat-label">解決率</div>
                    </div>
                </div>

                <div class="chart-card chart-card-wide" style="margin-bottom: 24px;">
                    <div class="chart-header">
                        <h3>月別チケット推移</h3>
                        <div class="chart-legend">
                            <span class="legend-item"><span class="legend-color" style="background:#0052CC"></span>作成</span>
                            <span class="legend-item"><span class="legend-color" style="background:#36B37E"></span>解決</span>
                        </div>
                    </div>
                    <canvas id="trends-chart"></canvas>
                </div>

                <div class="charts-row">
                    <div class="chart-card">
                        <h3>タイプ別分布</h3>
                        <canvas id="type-trends-chart"></canvas>
                    </div>
                </div>
            </div>
        </main>

        <!-- モーダル -->
        <div class="modal" id="issue-modal">
            <div class="modal-content">
                <div class="modal-header">
                    <h2 id="modal-issue-key"></h2>
                    <button class="modal-close" id="modal-close">&times;</button>
                </div>
                <div class="modal-body">
                    <div class="issue-detail">
                        <h3 id="modal-issue-summary"></h3>
                        <div class="issue-meta">
                            <div class="meta-item">
                                <span class="meta-label">ステータス:</span>
                                <span id="modal-status" class="status-badge"></span>
                            </div>
                            <div class="meta-item">
                                <span class="meta-label">優先度:</span>
                                <span id="modal-priority" class="priority-badge"></span>
                            </div>
                            <div class="meta-item">
                                <span class="meta-label">担当者:</span>
                                <span id="modal-assignee"></span>
                            </div>
                            <div class="meta-item">
                                <span class="meta-label">報告者:</span>
                                <span id="modal-reporter"></span>
                            </div>
                            <div class="meta-item">
                                <span class="meta-label">タイプ:</span>
                                <span id="modal-type"></span>
                            </div>
                            <div class="meta-item">
                                <span class="meta-label">スプリント:</span>
                                <span id="modal-sprint"></span>
                            </div>
                            <div class="meta-item">
                                <span class="meta-label">コンポーネント:</span>
                                <span id="modal-components"></span>
                            </div>
                            <div class="meta-item">
                                <span class="meta-label">ラベル:</span>
                                <span id="modal-labels"></span>
                            </div>
                            <div class="meta-item">
                                <span class="meta-label">作成日:</span>
                                <span id="modal-created"></span>
                            </div>
                            <div class="meta-item">
                                <span class="meta-label">更新日:</span>
                                <span id="modal-updated"></span>
                            </div>
                        </div>
                    </div>
                    <div class="change-history">
                        <h4>変更履歴</h4>
                        <div id="history-timeline" class="timeline"></div>
                    </div>
                </div>
            </div>
        </div>
    </div>

    <script>
const REPORT_DATA = {json_data};

{js}
    </script>
</body>
</html>
"#);
    reveal_strlit("\n    <script>\nconst REPORT_DATA = ");
    reveal_strlit("{json_data}");
    reveal_strlit(";\n\n");
    reveal_strlit("{js}");
    reveal_strlit("\n    </script>\n</body>\n</html>\n");
    let t = REPORT_HTML_TEMPLATE@;
    let tl = script_tail();
    assert(t.len() >= tl.len());
    assert(t.subrange(t.len() - tl.len(), t.len() as int) =~= tl);
    assert(t =~= t.take(t.len() - tl.len()) + t.subrange(t.len() - tl.len(), t.len() as int));
    reveal_strlit("<!DOCTYPE html>\n<html lang=\"ja\">\n<head>\n    <meta charset=\"UTF-8\">\n    <meta name=\"viewport\" content=\"width=device-width, initial-scale=1.0\">\n    <title>JIRA Interactive Report - ");
    reveal_strlit("{date}");
    reveal_strlit("</title>\n    <style>\n");
    reveal_strlit("{css}");
    reveal_strlit("\n    </style>");
    reveal_strlit("<span id=\"generated-at\">Generated: ");
    reveal_strlit("{generated_at}");
    reveal_strlit("</span>\n                    <span id=\"total-issues\">Total: ");
    reveal_strlit("{total_issues}");
    reveal_strlit(" issues</span>");
    let b = t.subrange(224, 446);
    let c = t.subrange(582, t.len() - tl.len());
    assert(t.subrange(0, 179) =~= title_open());
    assert(t.subrange(179, 185) =~= "{date}"@);
    assert(t.subrange(185, 206) =~= style_open());
    assert(t.subrange(206, 211) =~= "{css}"@);
    assert(t.subrange(211, 224) =~= style_close());
    assert(t.subrange(446, 481) =~= generated_label());
    assert(t.subrange(481, 495) =~= "{generated_at}"@);
    assert(t.subrange(495, 554) =~= total_label());
    assert(t.subrange(554, 568) =~= "{total_issues}"@);
    assert(t.subrange(568, 582) =~= issues_label());
    assert(t =~= title_open() + "{date}"@ + style_open() + "{css}"@ + style_close() + b
        + generated_label() + "{generated_at}"@ + total_label() + "{total_issues}"@ + issues_label()
        + c + script_tail());
}

/// Replacing a pattern whose first character does not occur leaves the
/// text as it was.
pub proof fn lemma_replace_without_first_char(x: Seq<char>, p: Seq<char>, r: Seq<char>)
    requires
        p.len() > 0,
        forall|j: int| 0 <= j < x.len() ==> x[j] != p[0],
    ensures
        replaced(x, p, r) == x,
    decreases x.len(),
{
    if x.len() >= p.len() {
        assert(x.take(p.len() as int)[0] == x[0]);
        lemma_replace_without_first_char(x.skip(1), p, r);
        assert(seq![x[0]] + x.skip(1) =~= x);
    }
}

/// Replacing a pattern in the pattern itself gives the replacement.
pub proof fn lemma_replace_whole(p: Seq<char>, r: Seq<char>)
    requires
        p.len() > 0,
    ensures
        replaced(p, p, r) == r,
{
    assert(p.take(p.len() as int) =~= p);
    let e = p.skip(p.len() as int);
    assert(replaced(e, p, r) == e);
    assert(r + e =~= r);
}

/// Replacing in `a + b` is replacing in `a` and in `b`, when no occurrence
/// of the pattern can start in `a` and end in `b`: the first character of
/// `b` is not one of the pattern's after its first, or the last of `a` not
/// one of the pattern's before its last.
pub proof fn lemma_replace_concat(a: Seq<char>, b: Seq<char>, p: Seq<char>, r: Seq<char>)
    requires
        p.len() > 0,
        a.len() == 0 || b.len() == 0 || (forall|k: int| 0 < k < p.len() ==> p[k] != b[0]) || (
        forall|k: int| 0 <= k < p.len() - 1 ==> p[k] != a.last()),
    ensures
        replaced(a + b, p, r) == replaced(a, p, r) + replaced(b, p, r),
    decreases a.len(),
{
    let s = a + b;
    if a.len() == 0 {
        assert(s =~= b);
        assert(replaced(a, p, r) + replaced(b, p, r) =~= replaced(b, p, r));
    } else if s.len() < p.len() {
        assert(replaced(a, p, r) + replaced(b, p, r) =~= s);
    } else if s.take(p.len() as int) == p {
        if a.len() < p.len() {
            assert(s.take(p.len() as int)[a.len() as int] == b[0]);
            assert(s.take(p.len() as int)[a.len() - 1] == a.last());
            assert(false);
        } else {
            let rest = a.skip(p.len() as int);
            assert(a.take(p.len() as int) =~= s.take(p.len() as int));
            assert(s.skip(p.len() as int) =~= rest + b);
            if rest.len() > 0 {
                assert(rest.last() == a.last());
            }
            lemma_replace_concat(rest, b, p, r);
            assert(r + (replaced(rest, p, r) + replaced(b, p, r)) =~= (r + replaced(rest, p, r))
                + replaced(b, p, r));
        }
    } else {
        let rest = a.skip(1);
        assert(s[0] == a[0]);
        assert(s.skip(1) =~= rest + b);
        if rest.len() > 0 {
            assert(rest.last() == a.last());
        }
        lemma_replace_concat(rest, b, p, r);
        if a.len() >= p.len() {
            assert(a.take(p.len() as int) =~= s.take(p.len() as int));
        } else {
            assert(seq![a[0]] + rest =~= a);
        }
        assert(seq![a[0]] + (replaced(rest, p, r) + replaced(b, p, r)) =~= (seq![a[0]]
            + replaced(rest, p, r)) + replaced(b, p, r));
    }
}

/// Putting a field of the page header in (a pattern that opens with `{` and
/// holds no other `{`, no `;`, no line break and no `j`) leaves
/// [`script_tail`] as it is.
proof fn lemma_header_field_keeps_tail(h: Seq<char>, p: Seq<char>, r: Seq<char>)
    requires
        p.len() > 4,
        p[0] == '{',
        forall|k: int| 0 < k < p.len() ==> p[k] != '{' && p[k] != ';' && p[k] != '\n' && p[k] != 'j',
    ensures
        replaced(h + script_tail(), p, r) == replaced(h, p, r) + script_tail(),
{
    reveal_strlit("\n    <script>\nconst REPORT_DATA = ");
    reveal_strlit("{json_data}");
    reveal_strlit(";\n\n");
    reveal_strlit("{js}");
    reveal_strlit("\n    </script>\n</body>\n</html>\n");
    let o = script_open();
    let j = "{json_data}"@;
    let m = script_between();
    let sj = "{js}"@;
    let c = script_close();
    lemma_replace_without_first_char(o, p, r);
    lemma_replace_without_first_char(m, p, r);
    lemma_replace_without_first_char(c, p, r);
    lemma_replace_without_first_char(j.skip(1), p, r);
    lemma_replace_concat(j.take(1), j.skip(1), p, r);
    assert(j.take(1) + j.skip(1) =~= j);
    assert(replaced(j.take(1), p, r) == j.take(1));
    assert(replaced(j, p, r) == j);
    assert(replaced(sj, p, r) == sj);
    lemma_replace_concat(o, j, p, r);
    lemma_replace_concat(o + j, m, p, r);
    lemma_replace_concat(o + j + m, sj, p, r);
    lemma_replace_concat(o + j + m + sj, c, p, r);
    assert(script_tail()[0] == '\n');
    lemma_replace_concat(h, script_tail(), p, r);
}

/// Putting the report's data in turns [`script_tail`] into the data
/// between [`script_open`] and [`script_between`], the script's place
/// still open.
proof fn lemma_data_fills_tail(h: Seq<char>, json_data: Seq<char>)
    ensures
        replaced(h + script_tail(), "{json_data}"@, json_data) == replaced(h, "{json_data}"@, json_data)
            + (script_open() + json_data + script_between() + "{js}"@ + script_close()),
{
    reveal_strlit("\n    <script>\nconst REPORT_DATA = ");
    reveal_strlit("{json_data}");
    reveal_strlit(";\n\n");
    reveal_strlit("{js}");
    reveal_strlit("\n    </script>\n</body>\n</html>\n");
    let p = "{json_data}"@;
    let o = script_open();
    let m = script_between();
    let sj = "{js}"@;
    let c = script_close();
    lemma_replace_without_first_char(o, p, json_data);
    lemma_replace_without_first_char(m, p, json_data);
    lemma_replace_without_first_char(c, p, json_data);
    lemma_replace_whole(p, json_data);
    assert(replaced(sj, p, json_data) == sj);
    lemma_replace_concat(o, p, p, json_data);
    lemma_replace_concat(o + p, m, p, json_data);
    lemma_replace_concat(o + p + m, sj, p, json_data);
    lemma_replace_concat(o + p + m + sj, c, p, json_data);
    assert(script_tail()[0] == '\n');
    lemma_replace_concat(h, script_tail(), p, json_data);
}

/// Putting the script in, after the data: the script takes its place, and
/// in the data only an occurrence of `{js}` is replaced.
proof fn lemma_script_fills_tail(h: Seq<char>, json_data: Seq<char>, js: Seq<char>)
    ensures
        replaced(
            h + (script_open() + json_data + script_between() + "{js}"@ + script_close()),
            "{js}"@,
            js,
        ) == replaced(h, "{js}"@, js) + (script_open() + replaced(json_data, "{js}"@, js)
            + script_between() + js + script_close()),
{
    reveal_strlit("\n    <script>\nconst REPORT_DATA = ");
    reveal_strlit(";\n\n");
    reveal_strlit("{js}");
    reveal_strlit("\n    </script>\n</body>\n</html>\n");
    let p = "{js}"@;
    let o = script_open();
    let m = script_between();
    let c = script_close();
    lemma_replace_without_first_char(o, p, js);
    lemma_replace_without_first_char(m, p, js);
    lemma_replace_without_first_char(c, p, js);
    lemma_replace_whole(p, js);
    lemma_replace_concat(o, json_data, p, js);
    lemma_replace_concat(o + json_data, m, p, js);
    lemma_replace_concat(o + json_data + m, p, p, js);
    lemma_replace_concat(o + json_data + m + p, c, p, js);
    let t = o + json_data + m + p + c;
    assert(t[0] == '\n');
    lemma_replace_concat(h, t, p, js);
}

/// On the report page the report's data follows `const REPORT_DATA = `,
/// and the script stands after it, where the template has `{js}`, at the
/// end of the page: the data as it was given, but for an occurrence of
/// `{js}` in it, which the script replaces as everywhere else.
pub proof fn lemma_report_data_then_script(
    date: Seq<char>,
    generated_at: Seq<char>,
    total_issues: nat,
    json_data: Seq<char>,
    js: Seq<char>,
)
    ensures
        has_suffix(
            report_page(date, generated_at, total_issues, json_data, js),
            script_open() + replaced(json_data, "{js}"@, js) + script_between() + js + script_close(),
        ),
        !has_infix(json_data, "{js}"@) ==> has_suffix(
            report_page(date, generated_at, total_issues, json_data, js),
            script_open() + json_data + script_between() + js + script_close(),
        ),
{
    reveal_strlit("{date}");
    reveal_strlit("{generated_at}");
    reveal_strlit("{total_issues}");
    reveal_strlit("{css}");
    lemma_template_layout();
    let h0 = template_head();
    lemma_header_field_keeps_tail(h0, "{date}"@, date);
    let h1 = replaced(h0, "{date}"@, date);
    lemma_header_field_keeps_tail(h1, "{generated_at}"@, generated_at);
    let h2 = replaced(h1, "{generated_at}"@, generated_at);
    lemma_header_field_keeps_tail(h2, "{total_issues}"@, decimal(total_issues));
    let h3 = replaced(h2, "{total_issues}"@, decimal(total_issues));
    lemma_header_field_keeps_tail(h3, "{css}"@, REPORT_CSS@);
    let h4 = replaced(h3, "{css}"@, REPORT_CSS@);
    lemma_data_fills_tail(h4, json_data);
    let h5 = replaced(h4, "{json_data}"@, json_data);
    lemma_script_fills_tail(h5, json_data, js);
    let h6 = replaced(h5, "{js}"@, js);
    let tail = script_open() + replaced(json_data, "{js}"@, js) + script_between() + js + script_close();
    let page = report_page(date, generated_at, total_issues, json_data, js);
    assert(page == h6 + tail);
    assert(page.subrange(page.len() - tail.len(), page.len() as int) =~= tail);
    if !has_infix(json_data, "{js}"@) {
        lemma_replace_absent(json_data, "{js}"@, js);
    }
}

/// A character that no placeholder of the template holds.
pub open spec fn edge_char(ch: char) -> bool {
    ch == ' ' || ch == '\n' || ch == '<' || ch == '>' || ch == ';'
}

/// A fixed part of the page: not empty, with no `{` in it, and beginning
/// and ending with an [`edge_char`].
pub open spec fn good_frame(x: Seq<char>) -> bool {
    &&& x.len() > 0
    &&& edge_char(x[0])
    &&& edge_char(x.last())
    &&& forall|j: int| 0 <= j < x.len() ==> x[j] != '{'
}

/// The fixed parts `f` with the slots `s` between them:
/// `f[0] + s[0] + f[1] + ... + s[n - 1] + f[n]`.
pub open spec fn woven(f: Seq<Seq<char>>, s: Seq<Seq<char>>) -> Seq<char>
    decreases s.len(),
{
    if f.len() == 0 {
        seq![]
    } else if s.len() == 0 {
        f[0]
    } else {
        woven(f.drop_last(), s.drop_last()) + s.last() + f.last()
    }
}

/// Each slot with a placeholder replaced.
pub open spec fn slots_replaced(s: Seq<Seq<char>>, p: Seq<char>, r: Seq<char>) -> Seq<Seq<char>> {
    s.map_values(|x: Seq<char>| replaced(x, p, r))
}

/// A woven text ends as its last fixed part does.
proof fn lemma_woven_last(f: Seq<Seq<char>>, s: Seq<Seq<char>>)
    requires
        f.len() == s.len() + 1,
        f.last().len() > 0,
    ensures
        woven(f, s).len() > 0,
        woven(f, s).last() == f.last().last(),
{
}

/// Replacing a placeholder (a pattern that opens with `{` and holds no
/// [`edge_char`]) in a woven text replaces it in each slot; the fixed
/// parts stay as they are.
proof fn lemma_replace_woven(f: Seq<Seq<char>>, s: Seq<Seq<char>>, p: Seq<char>, r: Seq<char>)
    requires
        f.len() == s.len() + 1,
        forall|i: int| 0 <= i < f.len() ==> good_frame(#[trigger] f[i]),
        p.len() > 0,
        p[0] == '{',
        forall|k: int| 0 <= k < p.len() ==> !edge_char(#[trigger] p[k]),
    ensures
        replaced(woven(f, s), p, r) == woven(f, slots_replaced(s, p, r)),
    decreases s.len(),
{
    if s.len() == 0 {
        assert(good_frame(f[0]));
        lemma_replace_without_first_char(f[0], p, r);
    } else {
        let f1 = f.drop_last();
        let s1 = s.drop_last();
        assert forall|i: int| 0 <= i < f1.len() implies good_frame(#[trigger] f1[i]) by {
            assert(f1[i] == f[i]);
        }
        lemma_replace_woven(f1, s1, p, r);
        let w = woven(f1, s1);
        let x = s.last();
        let y = f.last();
        assert(good_frame(f[f.len() - 1]));
        assert(good_frame(f1[f1.len() - 1]));
        lemma_woven_last(f1, s1);
        lemma_replace_concat(w, x, p, r);
        lemma_replace_concat(w + x, y, p, r);
        lemma_replace_without_first_char(y, p, r);
        assert(slots_replaced(s, p, r).drop_last() =~= slots_replaced(s1, p, r));
        assert(slots_replaced(s, p, r).last() == replaced(x, p, r));
    }
}

/// Replacing one placeholder leaves another as it is: both open with `{`,
/// which neither holds again, and the other does not start with the one
/// replaced.
proof fn lemma_other_placeholder_kept(q: Seq<char>, p: Seq<char>, r: Seq<char>)
    requires
        p.len() > 1,
        q.len() > 0,
        p[0] == '{',
        forall|j: int| 0 < j < q.len() ==> q[j] != '{',
        q.len() < p.len() || q.take(p.len() as int) != p,
    ensures
        replaced(q, p, r) == q,
{
    if q.len() >= p.len() {
        lemma_replace_without_first_char(q.skip(1), p, r);
        assert(seq![q[0]] + q.skip(1) =~= q);
    }
}

/// No decimal representation holds a `{`.
proof fn lemma_decimal_has_no_brace(n: nat)
    ensures
        forall|j: int| 0 <= j < decimal(n).len() ==> decimal(n)[j] != '{',
    decreases n,
{
    if n >= 10 {
        lemma_decimal_has_no_brace(n / 10);
        assert(decimal(n) == decimal(n / 10).push(crate::text::digit_char(n % 10)));
    }
}

/// The fixed parts of the page template, in order.
pub open spec fn page_frames() -> Seq<Seq<char>> {
    seq![
        title_open(),
        style_open(),
        style_close(),
        generated_label(),
        total_label(),
        issues_label(),
        script_open(),
        script_between(),
        script_close(),
    ]
}

/// The fixed parts of the page are good frames.
proof fn lemma_page_frames_good()
    ensures
        page_frames().len() == 9,
        forall|i: int| 0 <= i < page_frames().len() ==> good_frame(#[trigger] page_frames()[i]),
{
    reveal_strlit("<!DOCTYPE html>\n<html lang=\"ja\">\n<head>\n    <meta charset=\"UTF-8\">\n    <meta name=\"viewport\" content=\"width=device-width, initial-scale=1.0\">\n    <title>JIRA Interactive Report - ");
    reveal_strlit("</title>\n    <style>\n");
    reveal_strlit("\n    </style>");
    reveal_strlit("<span id=\"generated-at\">Generated: ");
    reveal_strlit("</span>\n                    <span id=\"total-issues\">Total: ");
    reveal_strlit(" issues</span>");
    reveal_strlit("\n    <script>\nconst REPORT_DATA = ");
    reveal_strlit(";\n\n");
    reveal_strlit("\n    </script>\n</body>\n</html>\n");
    let f = page_frames();
    assert(good_frame(title_open()));
    assert(good_frame(style_open()));
    assert(good_frame(style_close()));
    assert(good_frame(generated_label()));
    assert(good_frame(total_label()));
    assert(good_frame(issues_label()));
    assert(good_frame(script_open()));
    assert(good_frame(script_between()));
    assert(good_frame(script_close()));
    assert forall|i: int| 0 <= i < f.len() implies good_frame(#[trigger] f[i]) by {
        assert(0 <= i < 9 ==> i == 0 || i == 1 || i == 2 || i == 3 || i == 4 || i == 5 || i == 6
            || i == 7 || i == 8);
    }
}

/// The page's fixed parts with eight slots between them, written out.
pub open spec fn page_with(
    a0: Seq<char>,
    a1: Seq<char>,
    a2: Seq<char>,
    a3: Seq<char>,
    a4: Seq<char>,
    a5: Seq<char>,
    a6: Seq<char>,
    a7: Seq<char>,
) -> Seq<char> {
    title_open() + a0 + style_open() + a1 + style_close() + a2 + generated_label() + a3
        + total_label() + a4 + issues_label() + a5 + script_open() + a6 + script_between() + a7
        + script_close()
}

/// [`woven`] of the page's fixed parts is [`page_with`].
proof fn lemma_woven_page(
    a0: Seq<char>,
    a1: Seq<char>,
    a2: Seq<char>,
    a3: Seq<char>,
    a4: Seq<char>,
    a5: Seq<char>,
    a6: Seq<char>,
    a7: Seq<char>,
)
    ensures
        woven(page_frames(), seq![a0, a1, a2, a3, a4, a5, a6, a7]) == page_with(
            a0,
            a1,
            a2,
            a3,
            a4,
            a5,
            a6,
            a7,
        ),
{
    let f = page_frames();
    let s = seq![a0, a1, a2, a3, a4, a5, a6, a7];
    assert(f.take(1) =~= seq![title_open()]);
    assert(s.take(0) =~= Seq::<Seq<char>>::empty());
    let mut w = title_open();
    assert(woven(f.take(1), s.take(0)) == w);
    assert(f.take(2).drop_last() =~= f.take(1) && s.take(1).drop_last() =~= s.take(0));
    w = w + a0 + style_open();
    assert(woven(f.take(2), s.take(1)) == w);
    assert(f.take(3).drop_last() =~= f.take(2) && s.take(2).drop_last() =~= s.take(1));
    w = w + a1 + style_close();
    assert(woven(f.take(3), s.take(2)) == w);
    assert(f.take(4).drop_last() =~= f.take(3) && s.take(3).drop_last() =~= s.take(2));
    w = w + a2 + generated_label();
    assert(woven(f.take(4), s.take(3)) == w);
    assert(f.take(5).drop_last() =~= f.take(4) && s.take(4).drop_last() =~= s.take(3));
    w = w + a3 + total_label();
    assert(woven(f.take(5), s.take(4)) == w);
    assert(f.take(6).drop_last() =~= f.take(5) && s.take(5).drop_last() =~= s.take(4));
    w = w + a4 + issues_label();
    assert(woven(f.take(6), s.take(5)) == w);
    assert(f.take(7).drop_last() =~= f.take(6) && s.take(6).drop_last() =~= s.take(5));
    w = w + a5 + script_open();
    assert(woven(f.take(7), s.take(6)) == w);
    assert(f.take(8).drop_last() =~= f.take(7) && s.take(7).drop_last() =~= s.take(6));
    w = w + a6 + script_between();
    assert(woven(f.take(8), s.take(7)) == w);
    assert(f.take(9).drop_last() =~= f.take(8) && s.take(8).drop_last() =~= s.take(7));
    w = w + a7 + script_close();
    assert(woven(f.take(9), s.take(8)) == w);
    assert(f.take(9) =~= f && s.take(8) =~= s);
}

/// The page template is [`page_with`] its placeholders, and two stretches
/// of markup, in the slots.
proof fn lemma_template_slots()
    ensures
        exists|b: Seq<char>, c: Seq<char>|
            REPORT_HTML_TEMPLATE@ == page_with(
                "{date}"@,
                "{css}"@,
                b,
                "{generated_at}"@,
                "{total_issues}"@,
                c,
                "{json_data}"@,
                "{js}"@,
            ),
{
    lemma_template_layout();
    let (b, c) = choose|b: Seq<char>, c: Seq<char>|
        REPORT_HTML_TEMPLATE@ == title_open() + "{date}"@ + style_open() + "{css}"@ + style_close()
            + b + generated_label() + "{generated_at}"@ + total_label() + "{total_issues}"@
            + issues_label() + c + script_tail();
    assert(REPORT_HTML_TEMPLATE@ =~= page_with(
        "{date}"@,
        "{css}"@,
        b,
        "{generated_at}"@,
        "{total_issues}"@,
        c,
        "{json_data}"@,
        "{js}"@,
    ));
}

/// Putting the date in.
proof fn lemma_fill_date(b: Seq<char>, c: Seq<char>, date: Seq<char>)
    ensures
        replaced(
            page_with("{date}"@, "{css}"@, b, "{generated_at}"@, "{total_issues}"@, c, "{json_data}"@, "{js}"@),
            "{date}"@,
            date,
        ) == page_with(
            date,
            "{css}"@,
            replaced(b, "{date}"@, date),
            "{generated_at}"@,
            "{total_issues}"@,
            replaced(c, "{date}"@, date),
            "{json_data}"@,
            "{js}"@,
        ),
{
    reveal_strlit("{date}");
    reveal_strlit("{css}");
    reveal_strlit("{generated_at}");
    reveal_strlit("{total_issues}");
    reveal_strlit("{json_data}");
    reveal_strlit("{js}");
    let (pd, pc, pg, pt, pj, ps) = ("{date}"@, "{css}"@, "{generated_at}"@, "{total_issues}"@, "{json_data}"@, "{js}"@);
    let f = page_frames();
    let s0 = seq![pd, pc, b, pg, pt, c, pj, ps];
    let s1 = seq![date, pc, replaced(b, pd, date), pg, pt, replaced(c, pd, date), pj, ps];
    lemma_page_frames_good();
    lemma_woven_page(pd, pc, b, pg, pt, c, pj, ps);
    lemma_woven_page(date, pc, replaced(b, pd, date), pg, pt, replaced(c, pd, date), pj, ps);
    lemma_replace_woven(f, s0, pd, date);
    lemma_replace_whole(pd, date);
    assert(pg.take(6)[1] != pd[1]);
    lemma_other_placeholder_kept(pg, pd, date);
    assert(pt.take(6)[1] != pd[1]);
    lemma_other_placeholder_kept(pt, pd, date);
    assert(pj.take(6)[1] != pd[1]);
    lemma_other_placeholder_kept(pj, pd, date);
    assert(slots_replaced(s0, pd, date) =~= s1);
}

/// Putting the time the report was made in.
proof fn lemma_fill_generated_at(date: Seq<char>, b: Seq<char>, c: Seq<char>, g: Seq<char>)
    requires
        !has_infix(date, "{generated_at}"@),
    ensures
        replaced(page_with(date, "{css}"@, b, "{generated_at}"@, "{total_issues}"@, c, "{json_data}"@, "{js}"@), "{generated_at}"@, g) == page_with(date, "{css}"@, replaced(b, "{generated_at}"@, g), g, "{total_issues}"@, replaced(c, "{generated_at}"@, g), "{json_data}"@, "{js}"@),
{
    reveal_strlit("{date}");
    reveal_strlit("{css}");
    reveal_strlit("{generated_at}");
    reveal_strlit("{total_issues}");
    reveal_strlit("{json_data}");
    reveal_strlit("{js}");
    let (pd, pc, pg, pt, pj, ps) = ("{date}"@, "{css}"@, "{generated_at}"@, "{total_issues}"@, "{json_data}"@, "{js}"@);
    let f = page_frames();
    lemma_page_frames_good();
    let s0 = seq![date, "{css}"@, b, "{generated_at}"@, "{total_issues}"@, c, "{json_data}"@, "{js}"@];
    let s1 = seq![date, "{css}"@, replaced(b, "{generated_at}"@, g), g, "{total_issues}"@, replaced(c, "{generated_at}"@, g), "{json_data}"@, "{js}"@];
    lemma_woven_page(date, "{css}"@, b, "{generated_at}"@, "{total_issues}"@, c, "{json_data}"@, "{js}"@);
    lemma_woven_page(date, "{css}"@, replaced(b, "{generated_at}"@, g), g, "{total_issues}"@, replaced(c, "{generated_at}"@, g), "{json_data}"@, "{js}"@);
    lemma_replace_woven(f, s0, "{generated_at}"@, g);
    lemma_replace_whole("{generated_at}"@, g);
    lemma_replace_absent(date, pg, g);
    assert(pt.take(14)[1] != pg[1]);
    lemma_other_placeholder_kept(pt, pg, g);
    assert(slots_replaced(s0, "{generated_at}"@, g) =~= s1);
}

/// Putting the number of issues in.
proof fn lemma_fill_total(date: Seq<char>, g: Seq<char>, b: Seq<char>, c: Seq<char>, n: Seq<char>)
    requires
        !has_infix(date, "{total_issues}"@),
        !has_infix(g, "{total_issues}"@),
    ensures
        replaced(page_with(date, "{css}"@, b, g, "{total_issues}"@, c, "{json_data}"@, "{js}"@), "{total_issues}"@, n) == page_with(date, "{css}"@, replaced(b, "{total_issues}"@, n), g, n, replaced(c, "{total_issues}"@, n), "{json_data}"@, "{js}"@),
{
    reveal_strlit("{date}");
    reveal_strlit("{css}");
    reveal_strlit("{generated_at}");
    reveal_strlit("{total_issues}");
    reveal_strlit("{json_data}");
    reveal_strlit("{js}");
    let (pd, pc, pg, pt, pj, ps) = ("{date}"@, "{css}"@, "{generated_at}"@, "{total_issues}"@, "{json_data}"@, "{js}"@);
    let f = page_frames();
    lemma_page_frames_good();
    let s0 = seq![date, "{css}"@, b, g, "{total_issues}"@, c, "{json_data}"@, "{js}"@];
    let s1 = seq![date, "{css}"@, replaced(b, "{total_issues}"@, n), g, n, replaced(c, "{total_issues}"@, n), "{json_data}"@, "{js}"@];
    lemma_woven_page(date, "{css}"@, b, g, "{total_issues}"@, c, "{json_data}"@, "{js}"@);
    lemma_woven_page(date, "{css}"@, replaced(b, "{total_issues}"@, n), g, n, replaced(c, "{total_issues}"@, n), "{json_data}"@, "{js}"@);
    lemma_replace_woven(f, s0, "{total_issues}"@, n);
    lemma_replace_whole("{total_issues}"@, n);
    lemma_replace_absent(date, pt, n);
    lemma_replace_absent(g, pt, n);
    assert(slots_replaced(s0, "{total_issues}"@, n) =~= s1);
}

/// Putting the stylesheet in.
proof fn lemma_fill_css(date: Seq<char>, g: Seq<char>, n: Seq<char>, b: Seq<char>, c: Seq<char>, css: Seq<char>)
    requires
        !has_infix(date, "{css}"@),
        !has_infix(g, "{css}"@),
        forall|j: int| 0 <= j < n.len() ==> n[j] != '{',
    ensures
        replaced(page_with(date, "{css}"@, b, g, n, c, "{json_data}"@, "{js}"@), "{css}"@, css) == page_with(date, css, replaced(b, "{css}"@, css), g, n, replaced(c, "{css}"@, css), "{json_data}"@, "{js}"@),
{
    reveal_strlit("{date}");
    reveal_strlit("{css}");
    reveal_strlit("{generated_at}");
    reveal_strlit("{total_issues}");
    reveal_strlit("{json_data}");
    reveal_strlit("{js}");
    let (pd, pc, pg, pt, pj, ps) = ("{date}"@, "{css}"@, "{generated_at}"@, "{total_issues}"@, "{json_data}"@, "{js}"@);
    let f = page_frames();
    lemma_page_frames_good();
    let s0 = seq![date, "{css}"@, b, g, n, c, "{json_data}"@, "{js}"@];
    let s1 = seq![date, css, replaced(b, "{css}"@, css), g, n, replaced(c, "{css}"@, css), "{json_data}"@, "{js}"@];
    lemma_woven_page(date, "{css}"@, b, g, n, c, "{json_data}"@, "{js}"@);
    lemma_woven_page(date, css, replaced(b, "{css}"@, css), g, n, replaced(c, "{css}"@, css), "{json_data}"@, "{js}"@);
    lemma_replace_woven(f, s0, "{css}"@, css);
    lemma_replace_whole("{css}"@, css);
    lemma_replace_absent(date, pc, css);
    lemma_replace_absent(g, pc, css);
    lemma_replace_without_first_char(n, pc, css);
    assert(pj.take(5)[1] != pc[1]);
    lemma_other_placeholder_kept(pj, pc, css);
    assert(slots_replaced(s0, "{css}"@, css) =~= s1);
}

/// Putting the report's data in.
proof fn lemma_fill_data(date: Seq<char>, css: Seq<char>, g: Seq<char>, n: Seq<char>, b: Seq<char>, c: Seq<char>, json_data: Seq<char>)
    requires
        !has_infix(date, "{json_data}"@),
        !has_infix(g, "{json_data}"@),
        forall|j: int| 0 <= j < n.len() ==> n[j] != '{',
    ensures
        replaced(page_with(date, css, b, g, n, c, "{json_data}"@, "{js}"@), "{json_data}"@, json_data) == page_with(date, replaced(css, "{json_data}"@, json_data), replaced(b, "{json_data}"@, json_data), g, n, replaced(c, "{json_data}"@, json_data), json_data, "{js}"@),
{
    reveal_strlit("{date}");
    reveal_strlit("{css}");
    reveal_strlit("{generated_at}");
    reveal_strlit("{total_issues}");
    reveal_strlit("{json_data}");
    reveal_strlit("{js}");
    let (pd, pc, pg, pt, pj, ps) = ("{date}"@, "{css}"@, "{generated_at}"@, "{total_issues}"@, "{json_data}"@, "{js}"@);
    let f = page_frames();
    lemma_page_frames_good();
    let s0 = seq![date, css, b, g, n, c, "{json_data}"@, "{js}"@];
    let s1 = seq![date, replaced(css, "{json_data}"@, json_data), replaced(b, "{json_data}"@, json_data), g, n, replaced(c, "{json_data}"@, json_data), json_data, "{js}"@];
    lemma_woven_page(date, css, b, g, n, c, "{json_data}"@, "{js}"@);
    lemma_woven_page(date, replaced(css, "{json_data}"@, json_data), replaced(b, "{json_data}"@, json_data), g, n, replaced(c, "{json_data}"@, json_data), json_data, "{js}"@);
    lemma_replace_woven(f, s0, "{json_data}"@, json_data);
    lemma_replace_whole("{json_data}"@, json_data);
    lemma_replace_absent(date, pj, json_data);
    lemma_replace_absent(g, pj, json_data);
    lemma_replace_without_first_char(n, pj, json_data);
    assert(slots_replaced(s0, "{json_data}"@, json_data) =~= s1);
}

/// Putting the script in.
proof fn lemma_fill_script(date: Seq<char>, css: Seq<char>, g: Seq<char>, n: Seq<char>, b: Seq<char>, c: Seq<char>, json_data: Seq<char>, js: Seq<char>)
    requires
        !has_infix(date, "{js}"@),
        !has_infix(g, "{js}"@),
        forall|j: int| 0 <= j < n.len() ==> n[j] != '{',
    ensures
        replaced(page_with(date, css, b, g, n, c, json_data, "{js}"@), "{js}"@, js) == page_with(date, replaced(css, "{js}"@, js), replaced(b, "{js}"@, js), g, n, replaced(c, "{js}"@, js), replaced(json_data, "{js}"@, js), js),
{
    reveal_strlit("{date}");
    reveal_strlit("{css}");
    reveal_strlit("{generated_at}");
    reveal_strlit("{total_issues}");
    reveal_strlit("{json_data}");
    reveal_strlit("{js}");
    let (pd, pc, pg, pt, pj, ps) = ("{date}"@, "{css}"@, "{generated_at}"@, "{total_issues}"@, "{json_data}"@, "{js}"@);
    let f = page_frames();
    lemma_page_frames_good();
    let s0 = seq![date, css, b, g, n, c, json_data, "{js}"@];
    let s1 = seq![date, replaced(css, "{js}"@, js), replaced(b, "{js}"@, js), g, n, replaced(c, "{js}"@, js), replaced(json_data, "{js}"@, js), js];
    lemma_woven_page(date, css, b, g, n, c, json_data, "{js}"@);
    lemma_woven_page(date, replaced(css, "{js}"@, js), replaced(b, "{js}"@, js), g, n, replaced(c, "{js}"@, js), replaced(json_data, "{js}"@, js), js);
    lemma_replace_woven(f, s0, "{js}"@, js);
    lemma_replace_whole("{js}"@, js);
    lemma_replace_absent(date, ps, js);
    lemma_replace_absent(g, ps, js);
    lemma_replace_without_first_char(n, ps, js);
    assert(slots_replaced(s0, "{js}"@, js) =~= s1);
}

/// The report page is the template with each placeholder filled: the date
/// in the title, then the stylesheet, the time the report was made after
/// `Generated: `, the number of issues after `Total: `, the report's data
/// after `const REPORT_DATA = `, and the script at the end. Values are put
/// in one after another, as `str::replace` does, so a placeholder that an
/// earlier value holds is filled too: the law leaves out a date or a time
/// that holds one, and says that of the stylesheet and of the data only
/// such placeholders change.
pub proof fn lemma_report_page_layout(
    date: Seq<char>,
    generated_at: Seq<char>,
    total_issues: nat,
    json_data: Seq<char>,
    js: Seq<char>,
)
    requires
        !has_infix(date, "{generated_at}"@),
        !has_infix(date, "{total_issues}"@),
        !has_infix(date, "{css}"@),
        !has_infix(date, "{json_data}"@),
        !has_infix(date, "{js}"@),
        !has_infix(generated_at, "{total_issues}"@),
        !has_infix(generated_at, "{css}"@),
        !has_infix(generated_at, "{json_data}"@),
        !has_infix(generated_at, "{js}"@),
    ensures
        exists|b: Seq<char>, c: Seq<char>|
            report_page(date, generated_at, total_issues, json_data, js) == title_open() + date
                + style_open() + replaced(replaced(REPORT_CSS@, "{json_data}"@, json_data), "{js}"@, js)
                + style_close() + b + generated_label() + generated_at + total_label() + decimal(
                total_issues,
            ) + issues_label() + c + script_open() + replaced(json_data, "{js}"@, js)
                + script_between() + js + script_close(),
{
    let (pd, pc, pg, pt, pj, ps) = ("{date}"@, "{css}"@, "{generated_at}"@, "{total_issues}"@, "{json_data}"@, "{js}"@);
    let n = decimal(total_issues);
    let css = REPORT_CSS@;
    lemma_decimal_has_no_brace(total_issues);
    lemma_template_slots();
    let (b0, c0) = choose|b: Seq<char>, c: Seq<char>|
        REPORT_HTML_TEMPLATE@ == page_with(pd, pc, b, pg, pt, c, pj, ps);
    lemma_fill_date(b0, c0, date);
    let (b1, c1) = (replaced(b0, pd, date), replaced(c0, pd, date));
    lemma_fill_generated_at(date, b1, c1, generated_at);
    let (b2, c2) = (replaced(b1, pg, generated_at), replaced(c1, pg, generated_at));
    lemma_fill_total(date, generated_at, b2, c2, n);
    let (b3, c3) = (replaced(b2, pt, n), replaced(c2, pt, n));
    lemma_fill_css(date, generated_at, n, b3, c3, css);
    let (b4, c4) = (replaced(b3, pc, css), replaced(c3, pc, css));
    lemma_fill_data(date, css, generated_at, n, b4, c4, json_data);
    let (b5, c5) = (replaced(b4, pj, json_data), replaced(c4, pj, json_data));
    let css5 = replaced(css, pj, json_data);
    lemma_fill_script(date, css5, generated_at, n, b5, c5, json_data, js);
    let (b6, c6) = (replaced(b5, ps, js), replaced(c5, ps, js));
    assert(report_page(date, generated_at, total_issues, json_data, js) == page_with(
        date,
        replaced(css5, ps, js),
        b6,
        generated_at,
        n,
        c6,
        replaced(json_data, ps, js),
        js,
    ));
}

} // verus!
